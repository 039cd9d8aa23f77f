//! Audio bookkeeping: which clips exist, whether they have loaded,
//! when a clip should start playing, and the global volume. Decoding
//! and playback are engine work; this module only decides.

use vstd::prelude::*;

verus! {

/// The sound clips the game ships with.
#[derive(Clone, Copy, Debug, PartialEq, Eq, Hash, Structural)]
pub enum Clips {
    Hit,
}

/// What the engine reports of a clip's one tracked playing instance.
#[derive(Clone, Copy, Debug, PartialEq, Eq, Structural)]
pub enum PlaybackStatus {
    /// The clip has never been started.
    NoInstance,
    /// The tracked instance is still playing.
    Playing,
    /// The tracked instance has stopped.
    Stopped,
}

/// One loadable sound clip.
#[derive(Clone, Copy, Debug, PartialEq, Eq, Structural)]
pub struct AudioClip {
    pub loaded: bool,
    pub status: PlaybackStatus,
}

/// Global audio state: the main volume in per-mille.
#[derive(Clone, Copy, Debug, PartialEq, Eq, Structural)]
pub struct AudioState {
    pub main_volume_pm: u32,
}

/// The volume after one frame of the volume keys: a tenth up or down
/// per key, clamped to the unit range.
pub open spec fn adjusted_volume(v: int, up: bool, down: bool) -> int {
    let w = v + (if up {
        100int
    } else {
        0int
    }) - (if down {
        100int
    } else {
        0int
    });
    if w < 0 {
        0
    } else if w > 1000 {
        1000
    } else {
        w
    }
}

/// Apply one frame of the volume keys to the main volume.
pub fn temp_volume_control(state: &mut AudioState, up_pressed: bool, down_pressed: bool)
    requires
        old(state).main_volume_pm <= 1000,
    ensures
        final(state).main_volume_pm == adjusted_volume(
            old(state).main_volume_pm as int,
            up_pressed,
            down_pressed,
        ),
        final(state).main_volume_pm <= 1000,
{
    let mut w: i32 = state.main_volume_pm as i32;
    if up_pressed {
        w = w + 100;
    }
    if down_pressed {
        w = w - 100;
    }
    if w < 0 {
        w = 0;
    }
    if w > 1000 {
        w = 1000;
    }
    state.main_volume_pm = w as u32;
}

/// Whether a play request starts the clip now: only once it has
/// loaded, and only while no tracked instance is still playing.
pub fn play_single_sound(clip: &AudioClip) -> (play: bool)
    ensures
        play == (clip.loaded && (clip.status is NoInstance || clip.status is Stopped)),
{
    clip.loaded && (matches!(clip.status, PlaybackStatus::NoInstance) || matches!(
        clip.status,
        PlaybackStatus::Stopped,
    ))
}

/// Poll the engine's load report: a clip stays loaded once it has
/// loaded.
pub fn check_audio_loading(clip: &mut AudioClip, engine_reports_loaded: bool)
    ensures
        final(clip).loaded == (old(clip).loaded || engine_reports_loaded),
        final(clip).status == old(clip).status,
{
    if !clip.loaded && engine_reports_loaded {
        clip.loaded = true;
    }
}

} // verus!
