//! Axis-aligned box overlap tests shared by wall, grass and door
//! collision checks. A box is given by its centre and its half-width;
//! all boxes here are squares. Two boxes overlap only when their
//! interiors intersect: touching edges do not count, matching the
//! strict inequalities of the collision routine the game uses.

use vstd::prelude::*;

use crate::TILE_HALF;

verus! {

/// World-space centre of one tile, in world units.
#[derive(Clone, Copy, Debug, PartialEq, Eq, Structural)]
pub struct TilePos {
    pub x: i32,
    pub y: i32,
}

/// Whether the open squares centred at `(ax, ay)` and `(bx, by)` with
/// half-widths `a_half` and `b_half` intersect.
pub open spec fn boxes_overlap(
    ax: int,
    ay: int,
    a_half: int,
    bx: int,
    by: int,
    b_half: int,
) -> bool {
    &&& ax - a_half < bx + b_half
    &&& bx - b_half < ax + a_half
    &&& ay - a_half < by + b_half
    &&& by - b_half < ay + a_half
}

/// Whether the square of half-width `half` centred at `(x, y)` overlaps
/// any tile-sized box centred at one of `tiles`.
pub open spec fn hits_some(tiles: Seq<TilePos>, x: int, y: int, half: int) -> bool {
    exists|i: int|
        0 <= i < tiles.len() && boxes_overlap(
            x,
            y,
            half,
            #[trigger] tiles[i].x as int,
            tiles[i].y as int,
            TILE_HALF as int,
        )
}

/// Overlap test for two square boxes given by centre and half-width.
pub fn boxes_collide(ax: i32, ay: i32, a_half: u32, bx: i32, by: i32, b_half: u32) -> (r: bool)
    ensures
        r == boxes_overlap(ax as int, ay as int, a_half as int, bx as int, by as int, b_half as int),
{
    let ax = ax as i64;
    let ay = ay as i64;
    let a_half = a_half as i64;
    let bx = bx as i64;
    let by = by as i64;
    let b_half = b_half as i64;
    ax - a_half < bx + b_half && bx - b_half < ax + a_half && ay - a_half < by + b_half && by
        - b_half < ay + a_half
}

/// Whether the square of half-width `half` centred at `(x, y)` overlaps
/// any of the tile-sized boxes centred at `tiles`.
pub fn hits_any(x: i32, y: i32, half: u32, tiles: &Vec<TilePos>) -> (r: bool)
    ensures
        r == hits_some(tiles@, x as int, y as int, half as int),
{
    let mut i: usize = 0;
    while i < tiles.len()
        invariant
            0 <= i <= tiles@.len(),
            forall|j: int|
                0 <= j < i ==> !boxes_overlap(
                    x as int,
                    y as int,
                    half as int,
                    #[trigger] tiles@[j].x as int,
                    tiles@[j].y as int,
                    TILE_HALF as int,
                ),
        decreases tiles@.len() - i,
    {
        if boxes_collide(x, y, half, tiles[i].x, tiles[i].y, TILE_HALF as u32) {
            return true;
        }
        i = i + 1;
    }
    false
}

} // verus!
