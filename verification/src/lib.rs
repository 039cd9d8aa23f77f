//! Core logic of a 2D tile-based role-playing game: tilemap parsing,
//! axis-separated tile collision, wild-encounter timing, screen-fade
//! transitions and the turn-based combat state machine.
//!
//! World geometry uses a fixed-point model: one tile is `TILE_UNITS`
//! world units wide, world x grows to the right and world y grows
//! upward, so the tile in grid row `r`, column `c` sits at world
//! position `(c * TILE_UNITS, -r * TILE_UNITS)`. Durations are in
//! milliseconds; opacities, volumes and colour channels are per-mille.

use vstd::prelude::*;

pub mod audio;
pub mod combat;
pub mod fade;
pub mod geometry;
pub mod graphics;
pub mod nine_sprite;
pub mod player;
mod rng;
pub mod text;
pub mod tilemap;

verus! {

/// Width of one tile in world units.
pub const TILE_UNITS: i32 = 1000;

/// Half the width of one tile in world units; every tile's collision
/// box extends this far from its centre on both axes.
pub const TILE_HALF: i32 = 500;

/// Bound on the world coordinates the library works with; keeps every
/// box edge comfortably inside `i32`.
pub const COORD_LIMIT: i32 = 100_000_000;

/// The top-level game state: it decides which systems run each frame.
#[derive(Clone, Copy, Debug, PartialEq, Eq, Structural)]
pub enum GameState {
    Overworld,
    Combat,
}

/// A wild-encounter fade has completed its first half: combat begins.
pub fn start_combat(state: &mut GameState)
    ensures
        *final(state) is Combat,
{
    *state = GameState::Combat;
}

} // verus!
