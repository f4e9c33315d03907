//! The player domain: the controllable monarch.
//!
//! The monarch swaps between idle, walk, and run sprite sheets based on input
//! while the shared animation engine keeps cycling frames.

pub mod animation;
pub mod components;
pub mod movement;

use vstd::prelude::*;

use bevy::image::TextureAtlasLayout;

use crate::animation::{frame_after, lemma_frame_after, SpriteAnimation};
use crate::engine::{
    grid_cell, grid_layout, layout_cells, layout_size, timer_duration, timer_elapsed,
    timer_finished, timer_paused, timer_repeating, timer_times_finished,
};
use crate::player::animation::{
    animation_for, frame_count, frame_count_of, frame_millis_of, is_state_animation,
};
use crate::player::components::AnimationState;

verus! {

/// Frame size of the player sprite sheets (square, in source pixels).
pub const FRAME_SIZE: u32 = 128;

/// The number of grid columns of the sheet of `state`: all frames of a sheet
/// lie in one row.
pub open spec fn sheet_columns(state: AnimationState) -> u32 {
    frame_count_of(state) as u32
}

/// Whether `layout` is the sheet layout of `state`: one row of `FRAME_SIZE`
/// square cells, one per frame, left to right, and the size of that row.
pub open spec fn is_sheet_layout(layout: TextureAtlasLayout, state: AnimationState) -> bool {
    &&& layout_cells(layout).len() == sheet_columns(state)
    &&& layout_size(layout) == ((FRAME_SIZE * sheet_columns(state)) as u32, FRAME_SIZE)
    &&& forall|i: int|
        0 <= i < sheet_columns(state) ==> #[trigger] layout_cells(layout)[i] == grid_cell(
            FRAME_SIZE,
            sheet_columns(state),
            i,
        )
}

/// The atlas layout of the sheet of `state`: one row of `FRAME_SIZE` square
/// frames, as many as the state's animation has.
pub fn sheet_layout(state: AnimationState) -> (layout: TextureAtlasLayout)
    ensures
        is_sheet_layout(layout, state),
{
    let columns = frame_count(state) as u32;
    grid_layout(FRAME_SIZE, columns, 1)
}

/// What the monarch is spawned with: the three sheet layouts, the initial
/// animation state and animation, and the initial atlas frame.
pub struct PlayerSpawn {
    pub idle_layout: TextureAtlasLayout,
    pub walk_layout: TextureAtlasLayout,
    pub run_layout: TextureAtlasLayout,
    pub state: AnimationState,
    pub animation: SpriteAnimation,
    pub atlas_index: usize,
}

/// Builds the monarch's spawn data: the idle sheet is bound at frame 0, the
/// state is the default one, and the layouts of all three sheets are ready to
/// be registered.
pub fn spawn_player() -> (spawn: PlayerSpawn)
    ensures
        spawn.state == AnimationState::Idle,
        is_state_animation(spawn.animation, AnimationState::Idle),
        spawn.atlas_index == 0,
        is_sheet_layout(spawn.idle_layout, AnimationState::Idle),
        is_sheet_layout(spawn.walk_layout, AnimationState::Walk),
        is_sheet_layout(spawn.run_layout, AnimationState::Run),
{
    let state = AnimationState::default();
    PlayerSpawn {
        idle_layout: sheet_layout(AnimationState::Idle),
        walk_layout: sheet_layout(AnimationState::Walk),
        run_layout: sheet_layout(AnimationState::Run),
        state,
        animation: animation_for(state),
        atlas_index: 0,
    }
}

/// Every frame an animation of `state` can show names a cell of that state's
/// sheet: the sheet has exactly as many cells as the animation has frames,
/// and from the frame the sheet is applied at, any number of finished ticks
/// stays among them.
pub proof fn lemma_frames_fit_sheet(state: AnimationState, steps: nat)
    ensures
        sheet_columns(state) == frame_count_of(state),
        frame_after(0, frame_count_of(state), steps) < sheet_columns(state),
{
    lemma_frame_after(0, frame_count_of(state), steps);
}

/// Re-applying the current state swaps no sheet: when the animation already
/// has the state's frame count, frame duration and repeating timer, the fresh
/// animation that `apply_animation` installs keeps all three and only
/// restarts the timer at zero elapsed time. In particular the swap that runs
/// when the spawned state is first seen (`spawn_player`'s animation is the
/// fresh idle one) installs a timer with the very same model.
pub proof fn lemma_reapply_keeps_sheet(
    state: AnimationState,
    before: SpriteAnimation,
    after: SpriteAnimation,
)
    requires
        before.frames == frame_count_of(state),
        timer_duration(before.timer) == frame_millis_of(state) * 1_000_000,
        timer_repeating(before.timer),
        is_state_animation(after, state),
    ensures
        after.frames == before.frames,
        timer_duration(after.timer) == timer_duration(before.timer),
        timer_repeating(after.timer) == timer_repeating(before.timer),
        timer_elapsed(after.timer) == 0,
        is_state_animation(before, state) ==> {
            &&& timer_paused(after.timer) == timer_paused(before.timer)
            &&& timer_elapsed(after.timer) == timer_elapsed(before.timer)
            &&& timer_finished(after.timer) == timer_finished(before.timer)
            &&& timer_times_finished(after.timer) == timer_times_finished(before.timer)
        },
{
}

} // verus!
