//! Generic sprite-sheet animation engine.
//!
//! [`advance_animation`] is the per-entity step of the shared frame-cycling
//! system: it ticks the entity's timer and, on each tick where the timer has
//! just finished, moves the atlas index one frame forward, wrapping around
//! after the last frame of the bound sheet. It is entity-agnostic: anything
//! with a [`SpriteAnimation`] and a sprite is animated the same way.

pub mod components;

use vstd::prelude::*;

use std::time::Duration;

use bevy::time::Timer;

use crate::engine::{
    duration_nanos, elapsed_after_tick, max_duration_nanos, saturated_elapsed, tick_timer, ticked, timer_duration,
    timer_elapsed, timer_just_finished, timer_paused, timer_repeating, times_after_tick,
};

pub use components::SpriteAnimation;

verus! {

/// The frame that follows `index` in a sheet of `frames` frames.
pub open spec fn next_frame(index: usize, frames: usize) -> int
    recommends
        frames > 0,
{
    (index + 1) % (frames as int)
}

/// The atlas index after one animation step.
///
/// The index moves only when the timer has just finished, the sprite has an
/// atlas, and the sheet has at least one frame; otherwise it stays as it was.
pub open spec fn stepped_index(finished: bool, frames: usize, index: Option<usize>) -> Option<usize> {
    match index {
        Some(i) => if finished && frames > 0 {
            Some(next_frame(i, frames) as usize)
        } else {
            Some(i)
        },
        None => None,
    }
}

/// The atlas index after `steps` finished ticks, starting from `index`.
pub open spec fn frame_after(index: usize, frames: usize, steps: nat) -> usize
    decreases steps,
{
    if steps == 0 {
        index
    } else {
        next_frame(frame_after(index, frames, (steps - 1) as nat), frames) as usize
    }
}

/// Moves an atlas index one frame forward when the timer has just finished.
///
/// Decides the frame step of [`advance_animation`] once the timer's answer is
/// known.
pub fn step_frame(finished: bool, frames: usize, index: Option<usize>) -> (next: Option<usize>)
    requires
        finished && frames > 0 && index is Some ==> index->0 < usize::MAX,
    ensures
        next == stepped_index(finished, frames, index),
{
    match index {
        Some(i) => {
            if finished && frames > 0 {
                Some((i + 1) % frames)
            } else {
                Some(i)
            }
        },
        None => None,
    }
}

/// Whether ticking `timer` by `delta` nanoseconds is an ordinary frame tick: a
/// running repeating timer of positive duration (at most `u64::MAX` ns), the
/// stopwatch not saturating, and fewer than 2^32 whole durations elapsing.
pub open spec fn plain_tick(timer: Timer, delta: nat) -> bool {
    &&& timer_repeating(timer)
    &&& !timer_paused(timer)
    &&& 0 < timer_duration(timer) <= u64::MAX
    &&& timer_elapsed(timer) + delta <= max_duration_nanos()
    &&& (timer_elapsed(timer) + delta) / timer_duration(timer) < 0x1_0000_0000
}

/// On an ordinary frame tick the timer finishes exactly when the elapsed time
/// plus `delta` reaches its duration, and keeps the remainder.
pub proof fn lemma_plain_tick(timer: Timer, delta: nat)
    requires
        plain_tick(timer, delta),
    ensures
        (times_after_tick(timer, delta) > 0) == (timer_elapsed(timer) + delta >= timer_duration(timer)),
        elapsed_after_tick(timer, delta) == (timer_elapsed(timer) + delta) % timer_duration(timer),
{
    let reached: nat = timer_elapsed(timer) + delta;
    let d: nat = timer_duration(timer);
    vstd::arithmetic::div_mod::lemma_mod_pos_bound(reached as int, d as int);
    vstd::arithmetic::div_mod::lemma_small_mod(reached % d, 0x1_0000_0000_0000_0000nat);
    vstd::arithmetic::div_mod::lemma_div_pos_is_pos(reached as int, d as int);
    vstd::arithmetic::div_mod::lemma_small_mod(reached / d, 0x1_0000_0000nat);
    if reached >= d {
        vstd::arithmetic::div_mod::lemma_div_is_ordered(d as int, reached as int, d as int);
        vstd::arithmetic::div_mod::lemma_div_by_self(d as int);
    } else {
        vstd::arithmetic::div_mod::lemma_small_mod(reached, d);
    }
}

/// Advances one animated entity by `delta`.
///
/// Ticks the entity's timer once by `delta`; when the tick makes the timer
/// finish, the atlas index (if the sprite has an atlas) advances one frame
/// modulo the sheet's frame count. A sheet of zero frames leaves the index
/// alone. Returns whether the timer just finished. On an ordinary frame tick
/// that is exactly when the elapsed time plus `delta` reaches the duration.
pub fn advance_animation(
    animation: &mut SpriteAnimation,
    delta: Duration,
    atlas_index: &mut Option<usize>,
) -> (finished: bool)
    requires
        times_after_tick(old(animation).timer, duration_nanos(delta)) > 0 && old(animation).frames > 0
            && *old(atlas_index) is Some ==> old(atlas_index)->0 < usize::MAX,
    ensures
        final(animation).frames == old(animation).frames,
        ticked(old(animation).timer, final(animation).timer, duration_nanos(delta)),
        finished == (times_after_tick(old(animation).timer, duration_nanos(delta)) > 0),
        plain_tick(old(animation).timer, duration_nanos(delta)) ==> {
            &&& finished == (timer_elapsed(old(animation).timer) + duration_nanos(delta)
                >= timer_duration(old(animation).timer))
            &&& timer_elapsed(final(animation).timer) == (timer_elapsed(old(animation).timer)
                + duration_nanos(delta)) % timer_duration(old(animation).timer)
        },
        *final(atlas_index) == stepped_index(finished, old(animation).frames, *old(atlas_index)),
{
    tick_timer(&mut animation.timer, delta);
    let finished = timer_just_finished(&animation.timer);
    proof {
        if plain_tick(old(animation).timer, duration_nanos(delta)) {
            lemma_plain_tick(old(animation).timer, duration_nanos(delta));
        }
    }
    *atlas_index = step_frame(finished, animation.frames, *atlas_index);
    finished
}

/// A finished step always lands on a frame of the bound sheet: whatever the
/// index was before, after the timer fires it is below the frame count.
pub proof fn lemma_step_stays_in_sheet(frames: usize, index: usize)
    requires
        frames > 0,
    ensures
        stepped_index(true, frames, Some(index)) matches Some(j) && j < frames,
{
}

/// A step keeps an index that was in the sheet inside the sheet, whether or
/// not the timer fired.
pub proof fn lemma_step_keeps_in_sheet(finished: bool, frames: usize, index: usize)
    requires
        index < frames,
    ensures
        stepped_index(finished, frames, Some(index)) matches Some(j) && j < frames,
{
}

/// A tick on which the timer did not finish never moves the frame, and a
/// sprite without an atlas is never given one.
pub proof fn lemma_quiet_tick_keeps_frame(frames: usize, index: Option<usize>)
    ensures
        stepped_index(false, frames, index) == index,
        stepped_index(true, frames, None) == None::<usize>,
{
}

/// After `k` finished ticks a frame that started inside the sheet is at
/// `(index + k) % frames`.
pub proof fn lemma_frame_after(index: usize, frames: usize, steps: nat)
    requires
        index < frames,
    ensures
        frame_after(index, frames, steps) == (index + steps) % (frames as int),
    decreases steps,
{
    if steps == 0 {
        vstd::arithmetic::div_mod::lemma_small_mod(index as nat, frames as nat);
    } else {
        lemma_frame_after(index, frames, (steps - 1) as nat);
        let prev = (index + steps - 1) % (frames as int);
        vstd::arithmetic::div_mod::lemma_add_mod_noop(index + steps - 1, 1, frames as int);
        vstd::arithmetic::div_mod::lemma_add_mod_noop(prev, 1, frames as int);
        vstd::arithmetic::div_mod::lemma_mod_twice(index + steps - 1, frames as int);
        assert(((index + steps - 1) + 1) % (frames as int) == (prev + 1) % (frames as int));
    }
}

/// The animation loops: after as many finished ticks as the sheet has frames,
/// the sprite is back on the frame it started from.
pub proof fn lemma_animation_loops(index: usize, frames: usize)
    requires
        index < frames,
    ensures
        frame_after(index, frames, frames as nat) == index,
{
    lemma_frame_after(index, frames, frames as nat);
    vstd::arithmetic::div_mod::lemma_mod_add_multiples_vanish(index as int, frames as int);
    vstd::arithmetic::div_mod::lemma_small_mod(index as nat, frames as nat);
}

/// A tick of exactly one frame duration on a running repeating timer at zero
/// elapsed time finishes the timer once and brings it back to zero elapsed
/// time: the animation advances one frame per frame duration.
pub proof fn lemma_one_frame_per_duration(timer: Timer)
    requires
        timer_repeating(timer),
        !timer_paused(timer),
        0 < timer_duration(timer) <= max_duration_nanos(),
        timer_elapsed(timer) == 0,
    ensures
        times_after_tick(timer, timer_duration(timer)) == 1,
        elapsed_after_tick(timer, timer_duration(timer)) == 0,
{
    let d = timer_duration(timer);
    assert(d / d == 1) by {
        vstd::arithmetic::div_mod::lemma_div_by_self(d as int);
    }
    assert(d % d == 0) by {
        vstd::arithmetic::div_mod::lemma_mod_self_0(d as int);
    }
    assert(1nat % 0x1_0000_0000nat == 1);
    assert(0nat % 0x1_0000_0000_0000_0000nat == 0);
    assert(saturated_elapsed(timer, d) == d);
}

/// Ticking an animation `k` times by its frame duration, starting from a
/// fresh repeating timer, moves it exactly `k` frames: each step of the chain
/// is what `advance_animation` ensures, and the timer is back at zero elapsed
/// time after each one. With `lemma_animation_loops`, `frames` such ticks
/// bring the sprite back to the frame it started on.
pub proof fn lemma_frames_follow_ticks(
    timers: Seq<Timer>,
    indices: Seq<Option<usize>>,
    frames: usize,
    start: usize,
    k: nat,
)
    requires
        timers.len() == k + 1,
        indices.len() == k + 1,
        start < frames,
        indices[0] == Some(start),
        timer_repeating(timers[0]),
        !timer_paused(timers[0]),
        0 < timer_duration(timers[0]) <= max_duration_nanos(),
        timer_elapsed(timers[0]) == 0,
        forall|j: int|
            0 <= j < k ==> #[trigger] ticked(timers[j], timers[j + 1], timer_duration(timers[0])),
        forall|j: int|
            0 <= j < k ==> #[trigger] indices[j + 1] == stepped_index(
                times_after_tick(timers[j], timer_duration(timers[0])) > 0,
                frames,
                indices[j],
            ),
    ensures
        indices[k as int] == Some(frame_after(start, frames, k)),
        timer_elapsed(timers[k as int]) == 0,
        timer_duration(timers[k as int]) == timer_duration(timers[0]),
    decreases k,
{
    let d = timer_duration(timers[0]);
    if k > 0 {
        let km = (k - 1) as nat;
        let j: int = km as int;
        let pre_t = timers.take(k as int);
        let pre_i = indices.take(k as int);
        assert forall|i: int| 0 <= i < km implies #[trigger] ticked(pre_t[i], pre_t[i + 1], d) by {
            assert(ticked(timers[i], timers[i + 1], d));
        }
        assert forall|i: int|
            0 <= i < km implies #[trigger] pre_i[i + 1] == stepped_index(
                times_after_tick(pre_t[i], d) > 0,
                frames,
                pre_i[i],
            ) by {
            assert(indices[i + 1] == stepped_index(
                times_after_tick(timers[i], d) > 0,
                frames,
                indices[i],
            ));
        }
        lemma_frames_follow_ticks(pre_t, pre_i, frames, start, km);
        assert(ticked(timers[j], timers[j + 1], d));
        let t = timers[j];
        lemma_ticks_keep_mode(timers, d, km);
        lemma_one_frame_per_duration(t);
        lemma_frame_after(start, frames, km);
        vstd::arithmetic::div_mod::lemma_mod_pos_bound(start + km, frames as int);
        assert(indices[j + 1] == stepped_index(times_after_tick(t, d) > 0, frames, indices[j]));
    }
}

/// A chain of ticks keeps a timer's mode and pause state.
proof fn lemma_ticks_keep_mode(timers: Seq<Timer>, delta: nat, k: nat)
    requires
        k < timers.len(),
        forall|j: int| 0 <= j < k ==> #[trigger] ticked(timers[j], timers[j + 1], delta),
    ensures
        timer_repeating(timers[k as int]) == timer_repeating(timers[0]),
        timer_paused(timers[k as int]) == timer_paused(timers[0]),
    decreases k,
{
    if k > 0 {
        lemma_ticks_keep_mode(timers, delta, (k - 1) as nat);
        let j: int = k - 1;
        assert(ticked(timers[j], timers[j + 1], delta));
    }
}

} // verus!
