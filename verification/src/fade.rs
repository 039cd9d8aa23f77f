//! Screen fades: a timed opacity ramp that masks scene transitions.
//! The alpha rises to fully opaque at the halfway point and falls back
//! to transparent; the instant progress crosses one half, the carried
//! event fires exactly once. While a fade runs the player is held
//! inactive; when it completes, control returns.

use vstd::prelude::*;

use crate::player::Player;
use crate::tilemap::Door;

verus! {

/// The deferred event a fade carries to its midpoint.
#[derive(Debug)]
pub enum FadeEvent {
    /// A wild encounter fired: enter combat.
    Combat,
    /// The player touched a door: leave to its destination.
    Exit(Door),
}

/// One running fade.
#[derive(Debug)]
pub struct ScreenFade {
    pub elapsed_ms: u32,
    pub duration_ms: u32,
    /// Whether the midpoint event has already been sent.
    pub sent: bool,
    pub event: FadeEvent,
}

impl ScreenFade {
    /// The timer never runs past its duration, and durations are
    /// positive and bounded.
    pub open spec fn wf(&self) -> bool {
        &&& 1 <= self.duration_ms <= 100_000_000
        &&& self.elapsed_ms <= self.duration_ms
    }
}

/// The opacity at `elapsed` out of `duration`, in per-mille: a ramp up
/// to 1000 at the midpoint, then back down to 0.
pub open spec fn fade_alpha_pm(elapsed: int, duration: int) -> int {
    if 2 * elapsed < duration {
        2000 * elapsed / duration
    } else {
        2000 * (duration - elapsed) / duration
    }
}

/// Start a fade of the given length carrying `event`.
pub fn create_fadeout(event: FadeEvent, duration_ms: u32) -> (f: ScreenFade)
    requires
        1 <= duration_ms <= 100_000_000,
    ensures
        f.elapsed_ms == 0,
        f.duration_ms == duration_ms,
        f.sent == false,
        f.event == event,
        f.wf(),
{
    ScreenFade { elapsed_ms: 0, duration_ms, sent: false, event }
}

/// What one fade frame reports to the caller.
#[derive(Clone, Copy, Debug, PartialEq, Eq, Structural)]
pub struct FadeFrame {
    /// The opacity to draw the cover sprite with, per-mille.
    pub alpha_pm: u32,
    /// The carried event must fire now (it fires on exactly one
    /// frame).
    pub fired: bool,
    /// The fade just completed: destroy it and restore control.
    pub finished: bool,
}

/// Advance a fade by one frame. The player is held inactive while the
/// fade runs and re-enabled the moment it completes; the midpoint
/// event fires on the first frame whose progress exceeds one half.
pub fn fadeout(f: &mut ScreenFade, player: &mut Player, delta_ms: u32) -> (out: FadeFrame)
    requires
        old(f).wf(),
        delta_ms <= 1_000_000_000,
    ensures
        final(f).wf(),
        final(f).duration_ms == old(f).duration_ms,
        final(f).event == old(f).event,
        final(f).elapsed_ms == (if old(f).elapsed_ms + delta_ms >= old(f).duration_ms {
            old(f).duration_ms as int
        } else {
            old(f).elapsed_ms + delta_ms
        }),
        out.fired == (!old(f).sent && 2 * final(f).elapsed_ms > old(f).duration_ms),
        final(f).sent == (old(f).sent || out.fired),
        out.alpha_pm == fade_alpha_pm(final(f).elapsed_ms as int, old(f).duration_ms as int),
        out.finished == (final(f).elapsed_ms == old(f).duration_ms && old(f).elapsed_ms < old(
            f,
        ).duration_ms),
        *final(player) == (Player { active: out.finished, ..*old(player) }),
{
    let was_elapsed = f.elapsed_ms;
    player.active = false;
    let total: u64 = f.elapsed_ms as u64 + delta_ms as u64;
    let e2: u32 = if total >= f.duration_ms as u64 {
        f.duration_ms
    } else {
        total as u32
    };
    f.elapsed_ms = e2;
    let alpha_pm: u32 = if 2 * (e2 as u64) < f.duration_ms as u64 {
        proof {
            assert(2000 * (e2 as int) / (f.duration_ms as int) <= 2000) by (nonlinear_arith)
                requires
                    0 <= e2 as int <= f.duration_ms as int,
                    1 <= f.duration_ms as int,
            ;
            assert(2000 * (e2 as int) / (f.duration_ms as int) >= 0) by (nonlinear_arith)
                requires
                    0 <= e2 as int,
                    1 <= f.duration_ms as int,
            ;
        }
        ((2000u64 * (e2 as u64)) / (f.duration_ms as u64)) as u32
    } else {
        proof {
            let rem = f.duration_ms as int - e2 as int;
            assert(2000 * rem / (f.duration_ms as int) <= 2000) by (nonlinear_arith)
                requires
                    0 <= rem <= f.duration_ms as int,
                    1 <= f.duration_ms as int,
            ;
        }
        ((2000u64 * ((f.duration_ms - e2) as u64)) / (f.duration_ms as u64)) as u32
    };
    let fired = !f.sent && 2 * (e2 as u64) > f.duration_ms as u64;
    if fired {
        f.sent = true;
    }
    let finished = e2 == f.duration_ms && was_elapsed < f.duration_ms;
    if finished {
        player.active = true;
    }
    FadeFrame { alpha_pm, fired, finished }
}

} // verus!
