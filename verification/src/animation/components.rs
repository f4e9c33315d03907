//! Generic sprite-sheet animation components.

use vstd::prelude::*;

use bevy::time::Timer;
use std::time::Duration;

use crate::engine::{duration_nanos, fresh_timer, new_timer, TimerRepeat};

verus! {

/// Drives sprite-sheet animation by cycling the active atlas frame.
///
/// `frames` is the total number of frames in the currently bound sheet; the
/// timer fires once per frame and the index advances modulo `frames`.
pub struct SpriteAnimation {
    /// Counts down to the next frame advance.
    pub timer: Timer,
    /// Total frame count of the currently bound sprite sheet.
    pub frames: usize,
}

impl SpriteAnimation {
    /// Create a looping animation that advances one frame every `frame_duration`:
    /// its timer repeats, runs, and starts at zero elapsed time.
    pub fn new(frame_duration: Duration, frames: usize) -> (animation: Self)
        ensures
            animation.frames == frames,
            fresh_timer(animation.timer, duration_nanos(frame_duration) as int, TimerRepeat::Repeating),
    {
        SpriteAnimation { timer: new_timer(frame_duration, TimerRepeat::Repeating), frames }
    }
}

} // verus!
