//! Player animation state machine.
//!
//! [`update_animation_state`] derives the monarch's [`AnimationState`] from
//! the logical input and changes it only when it differs, so that a change of
//! state marks a real transition. [`apply_animation`] runs on such a
//! transition: it picks the sheet of the new state, restarts the atlas at
//! frame 0, and replaces the [`SpriteAnimation`] so the shared engine cycles
//! the new sheet from its beginning.

use vstd::prelude::*;

use std::time::Duration;

use crate::animation::SpriteAnimation;
use crate::engine::{duration_from_millis, duration_nanos, fresh_timer, TimerRepeat};
use crate::player::components::{AnimationState, PlayerAnimations};
use crate::player::movement::PlayerInput;

verus! {

/// Milliseconds per frame of the idle animation.
pub const IDLE_FRAME_MILLIS: u64 = 200;

/// Milliseconds per frame of the walk animation.
pub const WALK_FRAME_MILLIS: u64 = 100;

/// Milliseconds per frame of the run animation.
pub const RUN_FRAME_MILLIS: u64 = 100;

/// Frames in the idle sheet.
pub const IDLE_FRAME_COUNT: usize = 5;

/// Frames in the walk sheet.
pub const WALK_FRAME_COUNT: usize = 6;

/// Frames in the run sheet.
pub const RUN_FRAME_COUNT: usize = 6;

/// The state the input asks for: idle when there is no horizontal input,
/// otherwise running while the run modifier is held and walking when not.
pub open spec fn desired_state(input: PlayerInput) -> AnimationState {
    if input.move_axis != 0 {
        if input.run {
            AnimationState::Run
        } else {
            AnimationState::Walk
        }
    } else {
        AnimationState::Idle
    }
}

/// One update of the animation state: the new state, and whether it differs
/// from the old one.
pub open spec fn state_update(input: PlayerInput, state: AnimationState) -> (AnimationState, bool) {
    (desired_state(input), state != desired_state(input))
}

/// The number of frames in the sheet of `state`.
pub open spec fn frame_count_of(state: AnimationState) -> usize {
    match state {
        AnimationState::Idle => IDLE_FRAME_COUNT,
        AnimationState::Walk => WALK_FRAME_COUNT,
        AnimationState::Run => RUN_FRAME_COUNT,
    }
}

/// The duration of one frame of `state`, in milliseconds.
pub open spec fn frame_millis_of(state: AnimationState) -> u64 {
    match state {
        AnimationState::Idle => IDLE_FRAME_MILLIS,
        AnimationState::Walk => WALK_FRAME_MILLIS,
        AnimationState::Run => RUN_FRAME_MILLIS,
    }
}

/// Whether `animation` is a fresh animation of the sheet of `state`: the
/// sheet's frame count, and a running repeating timer of the state's frame
/// duration at zero elapsed time.
pub open spec fn is_state_animation(animation: SpriteAnimation, state: AnimationState) -> bool {
    &&& animation.frames == frame_count_of(state)
    &&& fresh_timer(animation.timer, frame_millis_of(state) * 1_000_000, TimerRepeat::Repeating)
}

/// The number of frames in the sheet of `state`.
pub fn frame_count(state: AnimationState) -> (count: usize)
    ensures
        count == frame_count_of(state),
{
    match state {
        AnimationState::Idle => IDLE_FRAME_COUNT,
        AnimationState::Walk => WALK_FRAME_COUNT,
        AnimationState::Run => RUN_FRAME_COUNT,
    }
}

/// The duration of one frame of `state`, in milliseconds.
pub fn frame_millis(state: AnimationState) -> (millis: u64)
    ensures
        millis == frame_millis_of(state),
{
    match state {
        AnimationState::Idle => IDLE_FRAME_MILLIS,
        AnimationState::Walk => WALK_FRAME_MILLIS,
        AnimationState::Run => RUN_FRAME_MILLIS,
    }
}

/// The duration of one frame of `state`.
fn frame_duration(state: AnimationState) -> (duration: Duration)
    ensures
        duration_nanos(duration) == frame_millis_of(state) * 1_000_000,
{
    duration_from_millis(frame_millis(state))
}

/// A fresh animation for the sheet of `state`, starting its first frame.
pub fn animation_for(state: AnimationState) -> (animation: SpriteAnimation)
    ensures
        is_state_animation(animation, state),
{
    SpriteAnimation::new(frame_duration(state), frame_count(state))
}

/// Updates the monarch's animation state from the current movement input.
///
/// Afterwards the state is the one the input asks for. Returns whether it
/// changed: the state is written only when it differs, so a stable input
/// leaves it untouched.
pub fn update_animation_state(input: &PlayerInput, state: &mut AnimationState) -> (changed: bool)
    ensures
        (*final(state), changed) == state_update(*input, *old(state)),
        changed == (*old(state) != *final(state)),
        *final(state) == AnimationState::Idle <==> input.move_axis == 0,
        *final(state) == AnimationState::Run <==> (input.move_axis != 0 && input.run),
{
    let desired = if input.move_axis != 0 {
        if input.run {
            AnimationState::Run
        } else {
            AnimationState::Walk
        }
    } else {
        AnimationState::Idle
    };
    if *state != desired {
        *state = desired;
        true
    } else {
        false
    }
}

/// Applies the animation state to the sprite and its animation.
///
/// Restarts the atlas (when the sprite has one) at frame 0, replaces the
/// animation with a fresh one for the state's sheet, and returns the image
/// and atlas layout of that sheet for the sprite to bind.
pub fn apply_animation<'a, I, L>(
    state: AnimationState,
    animations: &'a PlayerAnimations<I, L>,
    atlas_index: &mut Option<usize>,
    animation: &mut SpriteAnimation,
) -> (sheet: (&'a I, &'a L))
    ensures
        *sheet.0 == animations.image_for(state),
        *sheet.1 == animations.layout_for(state),
        *final(atlas_index) == (match *old(atlas_index) {
            Some(_) => Some(0usize),
            None => None,
        }),
        is_state_animation(*final(animation), state),
{
    let sheet = animations.sheet(state);
    if atlas_index.is_some() {
        *atlas_index = Some(0);
    }
    *animation = animation_for(state);
    sheet
}

/// The state machine settles: updating twice with the same input reports a
/// change at most once, and the second update leaves the state as the first
/// one left it.
pub proof fn lemma_state_settles(input: PlayerInput, state: AnimationState)
    ensures
        state_update(input, state_update(input, state).0) == (state_update(input, state).0, false),
{
}

/// The monarch is idle exactly when there is no horizontal input, and runs
/// exactly when she moves with the run modifier held.
pub proof fn lemma_state_follows_input(input: PlayerInput)
    ensures
        (desired_state(input) == AnimationState::Idle) == (input.move_axis == 0),
        (desired_state(input) == AnimationState::Run) == (input.move_axis != 0 && input.run),
        (desired_state(input) == AnimationState::Walk) == (input.move_axis != 0 && !input.run),
{
}

/// The flag reports exactly a change: an update answers `true` exactly when
/// the new state differs from the old one, and the new state depends on the
/// input alone, not on the old state.
pub proof fn lemma_update_reports_change(input: PlayerInput, state: AnimationState, other: AnimationState)
    ensures
        state_update(input, state).1 == (state_update(input, state).0 != state),
        state_update(input, state).0 == state_update(input, other).0,
        (state_update(input, state).0 == AnimationState::Idle) == (input.move_axis == 0),
        (state_update(input, state).0 == AnimationState::Run) == (input.move_axis != 0 && input.run),
        (state_update(input, state).0 == AnimationState::Walk) == (input.move_axis != 0 && !input.run),
{
}

} // verus!
