//! Sprite-animation bookkeeping: which way the player faces, which
//! frame of a walk cycle is current, and when the frame counter
//! advances. Rendering itself is engine work; this module only picks
//! sprite indices.

use vstd::prelude::*;

verus! {

/// A colour tint with per-mille channels: `(1000, 1000, 1000)` is
/// white.
#[derive(Clone, Copy, Debug, PartialEq, Eq, Structural)]
pub struct ColorRgb {
    pub r: u16,
    pub g: u16,
    pub b: u16,
}

/// The direction the player character is facing.
#[derive(Clone, Copy, Debug, PartialEq, Eq, Structural)]
pub enum FacingDirection {
    Up,
    Down,
    Left,
    Right,
}

/// Sprite-sheet indices of each walk cycle, one list per direction.
#[derive(Debug)]
pub struct PlayerAnimations {
    pub walk_down: Vec<usize>,
    pub walk_up: Vec<usize>,
    pub walk_left: Vec<usize>,
    pub walk_right: Vec<usize>,
}

impl PlayerAnimations {
    /// Every walk cycle has at least one frame.
    pub open spec fn wf(&self) -> bool {
        &&& self.walk_down@.len() > 0
        &&& self.walk_up@.len() > 0
        &&& self.walk_left@.len() > 0
        &&& self.walk_right@.len() > 0
    }

    /// The walk cycle for one facing direction.
    pub open spec fn cycle(&self, dir: FacingDirection) -> Seq<usize> {
        match dir {
            FacingDirection::Up => self.walk_up@,
            FacingDirection::Down => self.walk_down@,
            FacingDirection::Left => self.walk_left@,
            FacingDirection::Right => self.walk_right@,
        }
    }
}

/// The walk cycles the game ships with.
pub fn load_player_animations() -> (r: PlayerAnimations)
    ensures
        r.walk_down@ == seq![3usize, 4, 5],
        r.walk_up@ == seq![39usize, 40, 41],
        r.walk_left@ == seq![15usize, 16, 17],
        r.walk_right@ == seq![27usize, 28, 29],
        r.wf(),
{
    let r = PlayerAnimations {
        walk_down: vec![3, 4, 5],
        walk_up: vec![39, 40, 41],
        walk_left: vec![15, 16, 17],
        walk_right: vec![27, 28, 29],
    };
    assert(r.walk_down@ =~= seq![3usize, 4, 5]);
    assert(r.walk_up@ =~= seq![39usize, 40, 41]);
    assert(r.walk_left@ =~= seq![15usize, 16, 17]);
    assert(r.walk_right@ =~= seq![27usize, 28, 29]);
    r
}

/// A repeating frame timer: `current_frame` advances once each time
/// the timer completes a period.
#[derive(Clone, Copy, Debug, PartialEq, Eq, Structural)]
pub struct AnimatedSprite {
    pub current_frame: usize,
    pub elapsed_ms: u32,
    pub period_ms: u32,
}

/// Advance an animation timer by one frame's elapsed time. When the
/// period completes, the frame counter steps once and the timer keeps
/// the remainder.
pub fn animate_sprite(s: &mut AnimatedSprite, delta_ms: u32)
    requires
        old(s).period_ms > 0,
        old(s).elapsed_ms < old(s).period_ms,
        old(s).elapsed_ms + delta_ms <= u32::MAX,
        old(s).current_frame < usize::MAX,
    ensures
        final(s).period_ms == old(s).period_ms,
        old(s).elapsed_ms + delta_ms >= old(s).period_ms ==> {
            &&& final(s).current_frame == old(s).current_frame + 1
            &&& final(s).elapsed_ms == (old(s).elapsed_ms + delta_ms) as int % old(s).period_ms as int
        },
        old(s).elapsed_ms + delta_ms < old(s).period_ms ==> {
            &&& final(s).current_frame == old(s).current_frame
            &&& final(s).elapsed_ms == old(s).elapsed_ms + delta_ms
        },
        final(s).elapsed_ms < final(s).period_ms,
{
    let total: u32 = s.elapsed_ms + delta_ms;
    if total >= s.period_ms {
        s.current_frame = s.current_frame + 1;
        s.elapsed_ms = total % s.period_ms;
    } else {
        s.elapsed_ms = total;
    }
}

/// The sprite index the player shows this frame: the entry of the walk
/// cycle for the current facing, indexed by the frame counter modulo
/// the cycle length.
pub fn animate_player(
    animations: &PlayerAnimations,
    dir: FacingDirection,
    current_frame: usize,
) -> (index: usize)
    requires
        animations.wf(),
    ensures
        index == animations.cycle(dir)[current_frame as int % animations.cycle(dir).len() as int],
{
    match dir {
        FacingDirection::Up => animations.walk_up[current_frame % animations.walk_up.len()],
        FacingDirection::Down => animations.walk_down[current_frame % animations.walk_down.len()],
        FacingDirection::Left => animations.walk_left[current_frame % animations.walk_left.len()],
        FacingDirection::Right => animations.walk_right[current_frame
            % animations.walk_right.len()],
    }
}

} // verus!
