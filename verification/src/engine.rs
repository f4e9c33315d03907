//! Trusted interface to the Bevy engine and to `std::time`.
//!
//! Each item here is believed by the verifier without proof. The doc comment of
//! each one says which outside function it calls and what its contract claims.

use vstd::prelude::*;

use bevy::image::TextureAtlasLayout;
use bevy::math::UVec2;
use bevy::time::Timer;
use bevy::time::TimerMode;
use std::time::Duration;

verus! {

/// Bevy's `Timer` (from `bevy_time`). Verus sees nothing inside it; what the
/// library knows of a timer is what the names below say of it.
#[verifier::external_type_specification]
#[verifier::external_body]
pub struct ExTimer(Timer);

/// Whether a timer stops when it finishes or starts over.
#[derive(Debug, Clone, Copy, PartialEq, Eq, Structural)]
pub enum TimerRepeat {
    Once,
    Repeating,
}

/// `duration.as_nanos()`: the length of a `Duration` in nanoseconds.
pub uninterp spec fn duration_nanos(duration: Duration) -> nat;

/// `timer.duration().as_nanos()`.
pub uninterp spec fn timer_duration(timer: Timer) -> nat;

/// `timer.elapsed().as_nanos()`.
pub uninterp spec fn timer_elapsed(timer: Timer) -> nat;

/// `timer.mode() == TimerMode::Repeating`.
pub uninterp spec fn timer_repeating(timer: Timer) -> bool;

/// `timer.is_paused()`.
pub uninterp spec fn timer_paused(timer: Timer) -> bool;

/// `timer.is_finished()`.
pub uninterp spec fn timer_finished(timer: Timer) -> bool;

/// `timer.times_finished_this_tick()`.
pub uninterp spec fn timer_times_finished(timer: Timer) -> nat;

/// `Duration::MAX` in nanoseconds: `u64::MAX` seconds and 999 999 999 ns.
pub open spec fn max_duration_nanos() -> nat {
    18_446_744_073_709_551_615nat * 1_000_000_000nat + 999_999_999nat
}

/// The stopwatch's elapsed time after adding `delta`: `Duration`'s
/// `saturating_add` stops at `Duration::MAX`.
pub open spec fn saturated_elapsed(timer: Timer, delta: nat) -> nat {
    if timer_elapsed(timer) + delta <= max_duration_nanos() {
        timer_elapsed(timer) + delta
    } else {
        max_duration_nanos()
    }
}

/// Whether `tick` leaves the timer as it was apart from clearing the count:
/// a paused timer, or a timer that stops and has already finished.
pub open spec fn tick_is_idle(timer: Timer) -> bool {
    timer_paused(timer) || (!timer_repeating(timer) && timer_finished(timer))
}

/// `elapsed()` after `tick(delta)`, as bevy_time's `Timer::tick` computes it.
pub open spec fn elapsed_after_tick(timer: Timer, delta: nat) -> nat {
    let reached = saturated_elapsed(timer, delta);
    let duration = timer_duration(timer);
    if tick_is_idle(timer) {
        timer_elapsed(timer)
    } else if reached >= duration {
        if !timer_repeating(timer) {
            duration
        } else if duration > 0 {
            (reached % duration) % 0x1_0000_0000_0000_0000
        } else {
            0
        }
    } else {
        reached
    }
}

/// `times_finished_this_tick()` after `tick(delta)`, as `Timer::tick`
/// computes it (the quotient is cast to `u32`).
pub open spec fn times_after_tick(timer: Timer, delta: nat) -> nat {
    let reached = saturated_elapsed(timer, delta);
    let duration = timer_duration(timer);
    if tick_is_idle(timer) {
        0
    } else if reached >= duration {
        if !timer_repeating(timer) {
            1
        } else if duration > 0 {
            (reached / duration) % 0x1_0000_0000
        } else {
            0xffff_ffff
        }
    } else {
        0
    }
}

/// `is_finished()` after `tick(delta)`, as `Timer::tick` computes it.
pub open spec fn finished_after_tick(timer: Timer, delta: nat) -> bool {
    if timer_paused(timer) {
        !timer_repeating(timer) && timer_finished(timer)
    } else if !timer_repeating(timer) && timer_finished(timer) {
        true
    } else {
        saturated_elapsed(timer, delta) >= timer_duration(timer)
    }
}

/// `after` is `before` ticked by `delta` nanoseconds.
pub open spec fn ticked(before: Timer, after: Timer, delta: nat) -> bool {
    &&& timer_duration(after) == timer_duration(before)
    &&& timer_repeating(after) == timer_repeating(before)
    &&& timer_paused(after) == timer_paused(before)
    &&& timer_elapsed(after) == elapsed_after_tick(before, delta)
    &&& timer_times_finished(after) == times_after_tick(before, delta)
    &&& timer_finished(after) == finished_after_tick(before, delta)
}

/// Whether `timer` is a just-made, running timer of `duration` nanoseconds
/// that repeats as `repeat` says.
pub open spec fn fresh_timer(timer: Timer, duration: int, repeat: TimerRepeat) -> bool {
    &&& timer_duration(timer) == duration
    &&& timer_duration(timer) <= max_duration_nanos()
    &&& timer_repeating(timer) == (repeat == TimerRepeat::Repeating)
    &&& !timer_paused(timer)
    &&& timer_elapsed(timer) == 0
    &&& !timer_finished(timer)
    &&& timer_times_finished(timer) == 0
}

/// Calls `Timer::new(duration, mode)`, with `mode` the `TimerMode` variant of
/// the same name as `repeat`.
///
/// Claims what `Timer::new` shows: the given duration (which, being a
/// `Duration`, is at most `Duration::MAX`) and mode, and otherwise the
/// defaults (an unpaused stopwatch at zero, not finished, no finishes).
#[verifier::external_body]
pub(crate) fn new_timer(duration: Duration, repeat: TimerRepeat) -> (timer: Timer)
    ensures
        timer_duration(timer) == duration_nanos(duration),
        timer_duration(timer) <= max_duration_nanos(),
        timer_repeating(timer) == (repeat == TimerRepeat::Repeating),
        !timer_paused(timer),
        timer_elapsed(timer) == 0,
        !timer_finished(timer),
        timer_times_finished(timer) == 0,
{
    let mode = match repeat {
        TimerRepeat::Once => TimerMode::Once,
        TimerRepeat::Repeating => TimerMode::Repeating,
    };
    Timer::new(duration, mode)
}

/// Calls `Timer::tick(delta)` and drops the returned reference.
///
/// Claims what timer.rs shows of `tick`: duration, mode and pause state stay;
/// a paused timer keeps its elapsed time and finishes zero times (a repeating
/// one is no longer finished); a stopping timer that has finished stays so;
/// otherwise the stopwatch adds `delta` (saturating), the timer is finished
/// when that reaches the duration, a repeating one then keeps the remainder
/// and counts the quotient (cast to `u32`; a zero duration gives 0 and
/// `u32::MAX`), a stopping one clamps at its duration and counts 1.
#[verifier::external_body]
pub(crate) fn tick_timer(timer: &mut Timer, delta: Duration)
    ensures
        timer_duration(*final(timer)) == timer_duration(*old(timer)),
        timer_repeating(*final(timer)) == timer_repeating(*old(timer)),
        timer_paused(*final(timer)) == timer_paused(*old(timer)),
        timer_elapsed(*final(timer)) == elapsed_after_tick(*old(timer), duration_nanos(delta)),
        timer_times_finished(*final(timer)) == times_after_tick(*old(timer), duration_nanos(delta)),
        timer_finished(*final(timer)) == finished_after_tick(*old(timer), duration_nanos(delta)),
{
    timer.tick(delta);
}

/// Calls `Timer::just_finished()`: whether the last tick finished the timer at
/// least once.
#[verifier::external_body]
pub(crate) fn timer_just_finished(timer: &Timer) -> (finished: bool)
    ensures
        finished == (timer_times_finished(*timer) > 0),
{
    timer.just_finished()
}

/// Calls `std::time::Duration::from_millis(millis)`: `millis` milliseconds.
#[verifier::external_body]
pub(crate) fn duration_from_millis(millis: u64) -> (duration: Duration)
    ensures
        duration_nanos(duration) == millis * 1_000_000,
{
    Duration::from_millis(millis)
}

/// Bevy's `TextureAtlasLayout` (from `bevy_image`): the list of rectangles of
/// a sprite sheet, indexed by frame.
#[verifier::external_type_specification]
#[verifier::external_body]
pub struct ExTextureAtlasLayout(TextureAtlasLayout);

/// The cells of a texture atlas layout, in order: each is the rectangle
/// `(min.x, min.y, max.x, max.y)` of one frame, as `TextureAtlasLayout::textures`
/// holds it.
pub uninterp spec fn layout_cells(layout: TextureAtlasLayout) -> Seq<(u32, u32, u32, u32)>;

/// `layout.size`: the total size of the atlas, `(x, y)`.
pub uninterp spec fn layout_size(layout: TextureAtlasLayout) -> (u32, u32);

/// Cell `i` of an unpadded grid of square `tile_size` cells with `columns`
/// columns, counted row by row.
pub open spec fn grid_cell(tile_size: u32, columns: u32, i: int) -> (u32, u32, u32, u32)
    recommends
        columns > 0,
{
    let x = i % (columns as int);
    let y = i / (columns as int);
    (
        (x * tile_size) as u32,
        (y * tile_size) as u32,
        (x * tile_size + tile_size) as u32,
        (y * tile_size + tile_size) as u32,
    )
}

/// Calls `TextureAtlasLayout::from_grid(UVec2::splat(tile_size), columns, rows,
/// None, None)`.
///
/// Claims what the source of `from_grid` shows for a grid without padding or
/// offset: one cell per grid position, row by row, cell `(x, y)` spanning
/// `x * tile_size .. (x + 1) * tile_size` horizontally and likewise vertically,
/// and a total size of `tile_size` times the grid's columns and rows.
/// The `requires` keeps the `u32` arithmetic of the layout size from
/// overflowing, which would panic.
#[verifier::external_body]
pub(crate) fn grid_layout(tile_size: u32, columns: u32, rows: u32) -> (layout: TextureAtlasLayout)
    requires
        tile_size * columns <= u32::MAX,
        tile_size * rows <= u32::MAX,
    ensures
        layout_cells(layout).len() == columns * rows,
        layout_size(layout) == ((tile_size * columns) as u32, (tile_size * rows) as u32),
        forall|i: int|
            0 <= i < columns * rows ==> #[trigger] layout_cells(layout)[i] == grid_cell(
                tile_size,
                columns,
                i,
            ),
{
    TextureAtlasLayout::from_grid(UVec2::splat(tile_size), columns, rows, None, None)
}

} // verus!
