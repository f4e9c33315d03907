use std::time::Duration;

use kingdom::player::animation::{
    apply_animation, frame_count, frame_millis, update_animation_state, IDLE_FRAME_COUNT,
    RUN_FRAME_COUNT, WALK_FRAME_COUNT,
};
use kingdom::player::components::{AnimationState, PlayerAnimations};
use kingdom::player::movement::{apply_movement, gather_input, HeldKeys, PlayerInput};
use kingdom::player::{sheet_layout, spawn_player, FRAME_SIZE};
use bevy::time::TimerMode;
use kingdom::animation::{advance_animation, SpriteAnimation};

fn no_keys() -> HeldKeys {
    HeldKeys {
        arrow_left: false,
        key_a: false,
        arrow_right: false,
        key_d: false,
        shift_left: false,
        shift_right: false,
    }
}

fn sheets() -> PlayerAnimations<&'static str, u32> {
    PlayerAnimations {
        idle: "Idle.png",
        idle_layout: 1,
        walk: "Walk.png",
        walk_layout: 2,
        run: "Run.png",
        run_layout: 3,
    }
}

#[test]
fn defaults_are_idle_and_still() {
    assert_eq!(AnimationState::default(), AnimationState::Idle);
    let input = PlayerInput::default();
    assert_eq!(input.move_axis, 0);
    assert!(!input.run);
}

#[test]
fn gather_input_reads_left_keys() {
    let mut input = PlayerInput::default();
    gather_input(&HeldKeys { arrow_left: true, ..no_keys() }, &mut input);
    assert_eq!(input, PlayerInput { move_axis: -1, run: false });
    gather_input(&HeldKeys { key_a: true, shift_left: true, ..no_keys() }, &mut input);
    assert_eq!(input, PlayerInput { move_axis: -1, run: true });
}

#[test]
fn gather_input_reads_right_keys() {
    let mut input = PlayerInput::default();
    gather_input(&HeldKeys { key_d: true, shift_right: true, ..no_keys() }, &mut input);
    assert_eq!(input, PlayerInput { move_axis: 1, run: true });
    gather_input(&HeldKeys { arrow_right: true, ..no_keys() }, &mut input);
    assert_eq!(input, PlayerInput { move_axis: 1, run: false });
}

#[test]
fn gather_input_opposite_keys_cancel() {
    let mut input = PlayerInput { move_axis: 1, run: true };
    gather_input(&HeldKeys { arrow_left: true, key_d: true, ..no_keys() }, &mut input);
    assert_eq!(input, PlayerInput { move_axis: 0, run: false });
    gather_input(&no_keys(), &mut input);
    assert_eq!(input, PlayerInput { move_axis: 0, run: false });
}

#[test]
fn movement_speed_and_facing() {
    let mut flip = true;
    assert_eq!(apply_movement(&PlayerInput { move_axis: 1, run: false }, &mut flip), 150);
    assert!(!flip);
    assert_eq!(apply_movement(&PlayerInput { move_axis: -1, run: true }, &mut flip), -300);
    assert!(flip);
    assert_eq!(apply_movement(&PlayerInput { move_axis: 1, run: true }, &mut flip), 300);
    assert!(!flip);
}

#[test]
fn standing_keeps_last_facing() {
    let mut flip = true;
    assert_eq!(apply_movement(&PlayerInput { move_axis: 0, run: true }, &mut flip), 0);
    assert!(flip);
    let mut flip = false;
    assert_eq!(apply_movement(&PlayerInput { move_axis: 0, run: false }, &mut flip), 0);
    assert!(!flip);
}

#[test]
fn state_follows_input() {
    let mut state = AnimationState::Idle;
    assert!(update_animation_state(&PlayerInput { move_axis: 1, run: false }, &mut state));
    assert_eq!(state, AnimationState::Walk);
    assert!(update_animation_state(&PlayerInput { move_axis: -1, run: true }, &mut state));
    assert_eq!(state, AnimationState::Run);
    assert!(update_animation_state(&PlayerInput { move_axis: 0, run: true }, &mut state));
    assert_eq!(state, AnimationState::Idle);
}

#[test]
fn stable_input_reports_no_change() {
    let mut state = AnimationState::Walk;
    let input = PlayerInput { move_axis: -1, run: false };
    assert!(!update_animation_state(&input, &mut state));
    assert_eq!(state, AnimationState::Walk);
    let mut state = AnimationState::Idle;
    let input = PlayerInput { move_axis: 1, run: true };
    assert!(update_animation_state(&input, &mut state));
    assert!(!update_animation_state(&input, &mut state));
    assert_eq!(state, AnimationState::Run);
}

#[test]
fn sheet_constants() {
    assert_eq!(frame_count(AnimationState::Idle), IDLE_FRAME_COUNT);
    assert_eq!(frame_count(AnimationState::Walk), WALK_FRAME_COUNT);
    assert_eq!(frame_count(AnimationState::Run), RUN_FRAME_COUNT);
    assert_eq!((IDLE_FRAME_COUNT, WALK_FRAME_COUNT, RUN_FRAME_COUNT), (5, 6, 6));
    assert_eq!(frame_millis(AnimationState::Idle), 200);
    assert_eq!(frame_millis(AnimationState::Walk), 100);
    assert_eq!(frame_millis(AnimationState::Run), 100);
}

#[test]
fn apply_animation_swaps_sheet_and_restarts() {
    let animations = sheets();
    let mut index = Some(4);
    let mut animation = SpriteAnimation::new(Duration::from_millis(200), 5);
    let (image, layout) =
        apply_animation(AnimationState::Walk, &animations, &mut index, &mut animation);
    assert_eq!((*image, *layout), ("Walk.png", 2));
    assert_eq!(index, Some(0));
    assert_eq!(animation.frames, 6);
    assert_eq!(animation.timer.duration(), Duration::from_millis(100));
    assert!(!animation.timer.just_finished());

    let (image, layout) =
        apply_animation(AnimationState::Idle, &animations, &mut index, &mut animation);
    assert_eq!((*image, *layout), ("Idle.png", 1));
    assert_eq!(animation.frames, 5);
    assert_eq!(animation.timer.duration(), Duration::from_millis(200));

    let mut no_atlas: Option<usize> = None;
    let (image, layout) =
        apply_animation(AnimationState::Run, &animations, &mut no_atlas, &mut animation);
    assert_eq!((*image, *layout), ("Run.png", 3));
    assert_eq!(no_atlas, None);
    assert_eq!(animation.frames, 6);
}

#[test]
fn sheet_picks_handles_by_state() {
    let animations = sheets();
    assert_eq!(animations.sheet(AnimationState::Idle), (&"Idle.png", &1));
    assert_eq!(animations.sheet(AnimationState::Walk), (&"Walk.png", &2));
    assert_eq!(animations.sheet(AnimationState::Run), (&"Run.png", &3));
}

#[test]
fn sheet_layout_is_one_row_of_frames() {
    let layout = sheet_layout(AnimationState::Walk);
    assert_eq!(layout.len(), 6);
    for (k, cell) in layout.textures.iter().enumerate() {
        let x = k as u32 * FRAME_SIZE;
        assert_eq!((cell.min.x, cell.min.y, cell.max.x, cell.max.y), (x, 0, x + 128, 128));
    }
    assert_eq!(sheet_layout(AnimationState::Idle).len(), 5);
    assert_eq!(sheet_layout(AnimationState::Run).len(), 6);
}

#[test]
fn spawn_player_binds_idle_sheet() {
    let spawn = spawn_player();
    assert_eq!(spawn.state, AnimationState::Idle);
    assert_eq!(spawn.atlas_index, 0);
    assert_eq!(spawn.animation.frames, 5);
    assert_eq!(spawn.animation.timer.duration(), Duration::from_millis(200));
    assert_eq!(spawn.idle_layout.len(), 5);
    assert_eq!(spawn.walk_layout.len(), 6);
    assert_eq!(spawn.run_layout.len(), 6);
    assert_eq!(spawn.idle_layout.textures[4].min.x, 512);
}

#[test]
fn sheet_swap_installs_fresh_timer() {
    let animations = sheets();
    let mut animation = SpriteAnimation::new(Duration::from_millis(100), 6);
    let mut index = Some(3);
    advance_animation(&mut animation, Duration::from_millis(60), &mut index);
    let (image, layout) =
        apply_animation(AnimationState::Run, &animations, &mut index, &mut animation);
    assert_eq!((*image, *layout), ("Run.png", 3));
    assert_eq!(index, Some(0));
    assert_eq!(animation.frames, 6);
    assert_eq!(animation.timer.duration(), Duration::from_millis(100));
    assert_eq!(animation.timer.mode(), TimerMode::Repeating);
    assert_eq!(animation.timer.elapsed(), Duration::ZERO);
}

#[test]
fn sheet_layout_size_is_one_row() {
    let layout = sheet_layout(AnimationState::Idle);
    assert_eq!((layout.size.x, layout.size.y), (640, 128));
    let layout = sheet_layout(AnimationState::Run);
    assert_eq!((layout.size.x, layout.size.y), (768, 128));
}

#[test]
fn spawned_timer_is_fresh_idle_timer() {
    let spawn = spawn_player();
    assert_eq!(spawn.animation.timer.mode(), TimerMode::Repeating);
    assert_eq!(spawn.animation.timer.elapsed(), Duration::ZERO);
    assert!(!spawn.animation.timer.is_paused());
}
