//! The player controller: axis-separated movement against collider
//! tiles. Each simulation step proposes a displacement per axis from
//! the held keys; the x axis is resolved and committed first, then the
//! y axis is attempted from the already-updated position. A candidate
//! position is accepted exactly when the player's square hitbox
//! overlaps no collider tile.

use vstd::prelude::*;

use crate::geometry::{boxes_overlap, hits_some, hits_any, TilePos};
use crate::graphics::{AnimatedSprite, FacingDirection};
use crate::rng::rand_in_range;
use crate::tilemap::{Door, DoorSpot, DoorSpotModel};
use crate::{COORD_LIMIT, TILE_HALF, TILE_UNITS};

verus! {

/// The player's movable state. Positions are world units; `speed` is
/// world units per millisecond; the hitbox is the square of half-width
/// `hitbox_half` centred on the position.
#[derive(Clone, Copy, Debug, PartialEq, Eq, Structural)]
pub struct Player {
    pub x: i32,
    pub y: i32,
    pub speed: u32,
    pub hitbox_half: u32,
    pub current_direction: FacingDirection,
    pub just_moved: bool,
    pub active: bool,
}

/// Which movement keys are held this frame.
#[derive(Clone, Copy, Debug, PartialEq, Eq, Structural)]
pub struct MoveKeys {
    pub up: bool,
    pub down: bool,
    pub left: bool,
    pub right: bool,
}

/// Ghost model of a player, over unbounded integers.
pub struct PlayerModel {
    pub x: int,
    pub y: int,
    pub speed: int,
    pub hitbox_half: int,
    pub current_direction: FacingDirection,
    pub just_moved: bool,
    pub active: bool,
}

impl View for Player {
    type V = PlayerModel;

    open spec fn view(&self) -> PlayerModel {
        PlayerModel {
            x: self.x as int,
            y: self.y as int,
            speed: self.speed as int,
            hitbox_half: self.hitbox_half as int,
            current_direction: self.current_direction,
            just_moved: self.just_moved,
            active: self.active,
        }
    }
}

/// The proposed x displacement: right wins over left, no key means no
/// displacement.
pub open spec fn step_dx(keys: MoveKeys, amount: int) -> int {
    if keys.right {
        amount
    } else if keys.left {
        -amount
    } else {
        0
    }
}

/// The proposed y displacement: down wins over up.
pub open spec fn step_dy(keys: MoveKeys, amount: int) -> int {
    if keys.down {
        -amount
    } else if keys.up {
        amount
    } else {
        0
    }
}

/// The facing after a frame: the last direction key examined wins, in
/// the fixed order up, down, left, right; with no key held the facing
/// is kept. The facing changes even when the move is rejected.
pub open spec fn step_facing(keys: MoveKeys, old_dir: FacingDirection) -> FacingDirection {
    if keys.right {
        FacingDirection::Right
    } else if keys.left {
        FacingDirection::Left
    } else if keys.down {
        FacingDirection::Down
    } else if keys.up {
        FacingDirection::Up
    } else {
        old_dir
    }
}

/// One movement step. While inactive the player only clears
/// `just_moved`. Otherwise the x axis is resolved first and committed
/// if the hitbox at the x target is clear of every wall; the y axis is
/// then resolved from the committed x. `just_moved` records whether a
/// nonzero displacement was committed on either axis.
pub open spec fn step_result(p: PlayerModel, keys: MoveKeys, delta_ms: int, walls: Seq<TilePos>) -> PlayerModel {
    if !p.active {
        PlayerModel { just_moved: false, ..p }
    } else {
        let amount = p.speed * delta_ms;
        let dx = step_dx(keys, amount);
        let dy = step_dy(keys, amount);
        let x_ok = !hits_some(walls, p.x + dx, p.y, p.hitbox_half);
        let x1 = if x_ok {
            p.x + dx
        } else {
            p.x
        };
        let y_ok = !hits_some(walls, x1, p.y + dy, p.hitbox_half);
        let y1 = if y_ok {
            p.y + dy
        } else {
            p.y
        };
        PlayerModel {
            x: x1,
            y: y1,
            current_direction: step_facing(keys, p.current_direction),
            just_moved: (x_ok && dx != 0) || (y_ok && dy != 0),
            ..p
        }
    }
}

/// Whether a candidate player position is valid: its hitbox overlaps
/// no collider tile.
pub fn wall_collision_check(x: i32, y: i32, hitbox_half: u32, walls: &Vec<TilePos>) -> (ok: bool)
    ensures
        ok == !hits_some(walls@, x as int, y as int, hitbox_half as int),
{
    !hits_any(x, y, hitbox_half, walls)
}

/// Move the player for one frame against the given collider tiles.
pub fn basic_player_movement(p: &mut Player, keys: MoveKeys, delta_ms: u32, walls: &Vec<TilePos>)
    requires
        -COORD_LIMIT <= old(p).x <= COORD_LIMIT,
        -COORD_LIMIT <= old(p).y <= COORD_LIMIT,
        old(p).speed * delta_ms <= 1_000_000,
    ensures
        final(p)@ == step_result(old(p)@, keys, delta_ms as int, walls@),
{
    p.just_moved = false;
    if !p.active {
        return ;
    }
    let amount: i32 = (p.speed * delta_ms) as i32;

    let mut target_y: i32 = 0;
    if keys.up {
        p.current_direction = FacingDirection::Up;
        target_y = amount;
    }
    if keys.down {
        p.current_direction = FacingDirection::Down;
        target_y = -amount;
    }

    let mut target_x: i32 = 0;
    if keys.left {
        p.current_direction = FacingDirection::Left;
        target_x = -amount;
    }
    if keys.right {
        p.current_direction = FacingDirection::Right;
        target_x = amount;
    }

    if wall_collision_check(p.x + target_x, p.y, p.hitbox_half, walls) {
        p.x = p.x + target_x;
        if target_x != 0 {
            p.just_moved = true;
        }
    }

    if wall_collision_check(p.x, p.y + target_y, p.hitbox_half, walls) {
        p.y = p.y + target_y;
        if target_y != 0 {
            p.just_moved = true;
        }
    }
}

/// A move into a wall on one axis leaves that axis unchanged while the
/// other axis still moves: with a single collider that blocks the x
/// target but not the y target, the step keeps x and commits y.
pub proof fn lemma_axis_independence(p: PlayerModel, keys: MoveKeys, delta_ms: int, walls: Seq<TilePos>)
    requires
        p.active,
        walls.len() == 1,
        boxes_overlap(
            p.x + step_dx(keys, p.speed * delta_ms),
            p.y,
            p.hitbox_half,
            walls[0].x as int,
            walls[0].y as int,
            crate::TILE_HALF as int,
        ),
        !boxes_overlap(
            p.x,
            p.y + step_dy(keys, p.speed * delta_ms),
            p.hitbox_half,
            walls[0].x as int,
            walls[0].y as int,
            crate::TILE_HALF as int,
        ),
    ensures
        step_result(p, keys, delta_ms, walls).x == p.x,
        step_result(p, keys, delta_ms, walls).y == p.y + step_dy(keys, p.speed * delta_ms),
{
    let amount = p.speed * delta_ms;
    let dx = step_dx(keys, amount);
    let dy = step_dy(keys, amount);
    assert(hits_some(walls, p.x + dx, p.y, p.hitbox_half));
    assert(!hits_some(walls, p.x, p.y + dy, p.hitbox_half)) by {
        assert(forall|i: int| 0 <= i < walls.len() ==> #[trigger] walls[i] == walls[0]);
    }
}

// ---------------------------------------------------------------
// Wild encounters
// ---------------------------------------------------------------

/// The wild-encounter timer. It accumulates only on frames where the
/// player both just moved and stands on encounter grass; when it
/// reaches its threshold it resets and redraws the threshold
/// uniformly from `[min_ms, max_ms)`.
#[derive(Clone, Copy, Debug, PartialEq, Eq, Structural)]
pub struct EncounterTracker {
    pub elapsed_ms: u32,
    pub threshold_ms: u32,
    pub min_ms: u32,
    pub max_ms: u32,
}

impl EncounterTracker {
    /// The draw range is non-empty and bounded, the threshold lies in
    /// it, and the timer never runs past the threshold.
    pub open spec fn wf(&self) -> bool {
        &&& self.min_ms < self.max_ms
        &&& self.max_ms <= 1_000_000_000
        &&& self.min_ms <= self.threshold_ms < self.max_ms
        &&& self.elapsed_ms <= self.threshold_ms
    }

    /// A fresh tracker with the given first threshold and draw range.
    pub fn new(threshold_ms: u32, min_ms: u32, max_ms: u32) -> (t: EncounterTracker)
        requires
            min_ms <= threshold_ms < max_ms,
            max_ms <= 1_000_000_000,
        ensures
            t == (EncounterTracker { elapsed_ms: 0, threshold_ms, min_ms, max_ms }),
            t.wf(),
    {
        EncounterTracker { elapsed_ms: 0, threshold_ms, min_ms, max_ms }
    }
}

/// Advance the encounter timer for one frame. The timer progresses
/// only when the player just moved onto or over grass; it fires
/// exactly when the accumulated time reaches the threshold, and then
/// resets with a fresh threshold drawn from `[min_ms, max_ms)`.
pub fn encounter_tick(t: &mut EncounterTracker, just_moved: bool, on_grass: bool, delta_ms: u32) -> (fired:
    bool)
    requires
        old(t).wf(),
        delta_ms <= 1_000_000_000,
    ensures
        final(t).wf(),
        final(t).min_ms == old(t).min_ms,
        final(t).max_ms == old(t).max_ms,
        fired == (just_moved && on_grass && old(t).elapsed_ms + delta_ms >= old(t).threshold_ms),
        !(just_moved && on_grass) ==> *final(t) == *old(t),
        (just_moved && on_grass && !fired) ==> final(t).elapsed_ms == old(t).elapsed_ms + delta_ms
            && final(t).threshold_ms == old(t).threshold_ms,
        fired ==> final(t).elapsed_ms == 0 && old(t).min_ms <= final(t).threshold_ms < old(
            t,
        ).max_ms,
{
    if !just_moved || !on_grass {
        return false;
    }
    let total: u64 = t.elapsed_ms as u64 + delta_ms as u64;
    if total >= t.threshold_ms as u64 {
        t.elapsed_ms = 0;
        t.threshold_ms = rand_in_range(t.min_ms, t.max_ms);
        true
    } else {
        t.elapsed_ms = t.elapsed_ms + delta_ms;
        false
    }
}

/// The per-frame grass check: accumulate the encounter timer exactly
/// when the player just moved and their hitbox overlaps some grass
/// tile, and report whether an encounter fired this frame.
pub fn grass_collision(t: &mut EncounterTracker, player: &Player, grass: &Vec<TilePos>, delta_ms: u32) -> (fired:
    bool)
    requires
        old(t).wf(),
        delta_ms <= 1_000_000_000,
    ensures
        final(t).wf(),
        final(t).min_ms == old(t).min_ms,
        final(t).max_ms == old(t).max_ms,
        fired == (player.just_moved && hits_some(
            grass@,
            player.x as int,
            player.y as int,
            player.hitbox_half as int,
        ) && old(t).elapsed_ms + delta_ms >= old(t).threshold_ms),
        !(player.just_moved && hits_some(
            grass@,
            player.x as int,
            player.y as int,
            player.hitbox_half as int,
        )) ==> *final(t) == *old(t),
        fired ==> final(t).elapsed_ms == 0 && old(t).min_ms <= final(t).threshold_ms < old(
            t,
        ).max_ms,
{
    let on_grass = hits_any(player.x, player.y, player.hitbox_half, grass);
    encounter_tick(t, player.just_moved, on_grass, delta_ms)
}

// ---------------------------------------------------------------
// Door contact
// ---------------------------------------------------------------

/// The destinations of the doors, from index `i` on, whose tiles the
/// square at `(x, y)` with half-width `half` overlaps, in order.
pub open spec fn doors_hit(doors: Seq<DoorSpotModel>, i: int, x: int, y: int, half: int) -> Seq<
    crate::tilemap::DoorModel,
>
    decreases doors.len() - i,
{
    if i < 0 || i >= doors.len() {
        seq![]
    } else if boxes_overlap(x, y, half, doors[i].pos.x as int, doors[i].pos.y as int, TILE_HALF as int) {
        seq![doors[i].door] + doors_hit(doors, i + 1, x, y, half)
    } else {
        doors_hit(doors, i + 1, x, y, half)
    }
}

/// The per-frame door check. While the player is active, every door
/// tile their hitbox overlaps produces one exit request, in scan
/// order, and any contact deactivates the player until the fade
/// restores control.
#[verifier::loop_isolation(false)]
pub fn door_collision(player: &mut Player, doors: &Vec<DoorSpot>) -> (exits: Vec<Door>)
    ensures
        !old(player).active ==> *final(player) == *old(player) && exits@.len() == 0,
        old(player).active ==> {
            let hit = doors_hit(
                doors@.map_values(|d: DoorSpot| d@),
                0,
                old(player).x as int,
                old(player).y as int,
                old(player).hitbox_half as int,
            );
            &&& exits@.map_values(|d: Door| d@) == hit
            &&& *final(player) == (Player { active: hit.len() == 0, ..*old(player) })
        },
{
    let ghost dv = doors@.map_values(|d: DoorSpot| d@);
    let ghost ev = |d: Door| d@;
    let mut exits: Vec<Door> = Vec::new();
    if !player.active {
        return exits;
    }
    let mut i: usize = 0;
    proof {
        assert(exits@.map_values(ev) =~= Seq::<crate::tilemap::DoorModel>::empty());
    }
    while i < doors.len()
        invariant
            0 <= i <= doors@.len(),
            exits@.map_values(ev) + doors_hit(
                dv,
                i as int,
                old(player).x as int,
                old(player).y as int,
                old(player).hitbox_half as int,
            ) == doors_hit(
                dv,
                0,
                old(player).x as int,
                old(player).y as int,
                old(player).hitbox_half as int,
            ),
            player.x == old(player).x,
            player.y == old(player).y,
            player.speed == old(player).speed,
            player.hitbox_half == old(player).hitbox_half,
            player.current_direction == old(player).current_direction,
            player.just_moved == old(player).just_moved,
            player.active == (exits@.len() == 0),
            exits@.len() == exits@.map_values(ev).len(),
        decreases doors@.len() - i,
    {
        let spot = &doors[i];
        if crate::geometry::boxes_collide(
            player.x,
            player.y,
            player.hitbox_half,
            spot.pos.x,
            spot.pos.y,
            TILE_HALF as u32,
        ) {
            player.active = false;
            let d = spot.door.duplicate();
            proof {
                assert(dv[i as int] == doors@[i as int]@);
                assert(d@ == dv[i as int].door);
                assert((exits@.push(d)).map_values(ev) + doors_hit(
                    dv,
                    i as int + 1,
                    old(player).x as int,
                    old(player).y as int,
                    old(player).hitbox_half as int,
                ) =~= exits@.map_values(ev) + doors_hit(
                    dv,
                    i as int,
                    old(player).x as int,
                    old(player).y as int,
                    old(player).hitbox_half as int,
                ));
            }
            exits.push(d);
        } else {
            proof {
                assert(dv[i as int] == doors@[i as int]@);
            }
        }
        i = i + 1;
    }
    exits
}

// ---------------------------------------------------------------
// The overworld frame
// ---------------------------------------------------------------

/// What one overworld frame reports: whether a wild encounter fired,
/// and the exits of every door the player touched.
#[derive(Debug)]
pub struct OverworldEvents {
    pub encounter: bool,
    pub exits: Vec<Door>,
}

/// One full overworld frame in the declared system order: movement
/// commits first, then the encounter and door checks read the already
/// updated position. Both checks run each frame; nothing makes their
/// triggers mutually exclusive.
pub fn overworld_frame(
    player: &mut Player,
    tracker: &mut EncounterTracker,
    keys: MoveKeys,
    delta_ms: u32,
    walls: &Vec<TilePos>,
    grass: &Vec<TilePos>,
    doors: &Vec<DoorSpot>,
) -> (ev: OverworldEvents)
    requires
        -COORD_LIMIT <= old(player).x <= COORD_LIMIT,
        -COORD_LIMIT <= old(player).y <= COORD_LIMIT,
        old(player).speed * delta_ms <= 1_000_000,
        old(tracker).wf(),
        delta_ms <= 1_000_000_000,
    ensures
        ({
            let m = step_result(old(player)@, keys, delta_ms as int, walls@);
            let on_grass = hits_some(grass@, m.x, m.y, m.hitbox_half);
            let hit = doors_hit(doors@.map_values(|d: DoorSpot| d@), 0, m.x, m.y, m.hitbox_half);
            &&& ev.encounter == (m.just_moved && on_grass && old(tracker).elapsed_ms + delta_ms
                >= old(tracker).threshold_ms)
            &&& final(tracker).wf()
            &&& final(tracker).min_ms == old(tracker).min_ms
            &&& final(tracker).max_ms == old(tracker).max_ms
            &&& (!(m.just_moved && on_grass) ==> *final(tracker) == *old(tracker))
            &&& (ev.encounter ==> final(tracker).elapsed_ms == 0 && old(tracker).min_ms
                <= final(tracker).threshold_ms < old(tracker).max_ms)
            &&& (m.active ==> final(player)@ == (PlayerModel { active: hit.len() == 0, ..m })
                && ev.exits@.map_values(|d: Door| d@) == hit)
            &&& (!m.active ==> final(player)@ == m && ev.exits@.len() == 0)
        }),
{
    basic_player_movement(player, keys, delta_ms, walls);
    let encounter = grass_collision(tracker, player, grass, delta_ms);
    let exits = door_collision(player, doors);
    OverworldEvents { encounter, exits }
}

// ---------------------------------------------------------------
// Camera
// ---------------------------------------------------------------

/// The camera's world position.
#[derive(Clone, Copy, Debug, PartialEq, Eq, Structural)]
pub struct Camera {
    pub x: i32,
    pub y: i32,
}

/// Keep the camera centred on the player.
pub fn camera_follow(cam: &mut Camera, player: &Player)
    ensures
        final(cam).x == player.x,
        final(cam).y == player.y,
{
    cam.x = player.x;
    cam.y = player.y;
}

// ---------------------------------------------------------------
// Spawning
// ---------------------------------------------------------------

/// The player as the game starts: standing at grid cell (12, 2),
/// six tiles per second, a hitbox nine tenths of a tile wide, facing
/// down; with the starting walk-cycle timer and encounter timer.
pub fn spawn_player() -> (r: (Player, AnimatedSprite, EncounterTracker))
    ensures
        r.0 == (Player {
            x: 12000i32,
            y: -2000i32,
            speed: 6,
            hitbox_half: 450,
            current_direction: FacingDirection::Down,
            just_moved: false,
            active: true,
        }),
        r.1 == (AnimatedSprite { current_frame: 0, elapsed_ms: 0, period_ms: 200 }),
        r.2 == (EncounterTracker {
            elapsed_ms: 0,
            threshold_ms: 1000,
            min_ms: 500,
            max_ms: 2500,
        }),
        r.2.wf(),
{
    let player = Player {
        x: 12 * TILE_UNITS,
        y: -2 * TILE_UNITS,
        speed: 6,
        hitbox_half: 450,
        current_direction: FacingDirection::Down,
        just_moved: false,
        active: true,
    };
    let sprite = AnimatedSprite { current_frame: 0, elapsed_ms: 0, period_ms: 200 };
    let tracker = EncounterTracker::new(1000, 500, 2500);
    (player, sprite, tracker)
}

} // verus!
