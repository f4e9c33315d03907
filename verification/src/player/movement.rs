//! Player movement and input handling.
//!
//! The raw key states are turned into a logical [`PlayerInput`] by
//! [`gather_input`]; [`apply_movement`] turns that input into a horizontal
//! velocity and the monarch's facing.

use vstd::prelude::*;

verus! {

/// Horizontal walking speed in world units per second.
pub const WALK_SPEED: u32 = 150;

/// Horizontal running speed in world units per second.
pub const RUN_SPEED: u32 = 300;

/// The keys the movement reads, each `true` while held.
#[derive(Debug, Clone, Copy, PartialEq, Eq, Structural)]
pub struct HeldKeys {
    pub arrow_left: bool,
    pub key_a: bool,
    pub arrow_right: bool,
    pub key_d: bool,
    pub shift_left: bool,
    pub shift_right: bool,
}

/// Logical input produced by the physical input layer.
///
/// `move_axis` is the horizontal movement axis: `-1` for left, `1` for right,
/// `0` when there is no net horizontal input.
#[derive(Debug, Clone, Copy, PartialEq, Eq, Structural)]
pub struct PlayerInput {
    pub move_axis: i8,
    /// Run modifier held.
    pub run: bool,
}

impl Default for PlayerInput {
    /// No movement, not running.
    fn default() -> (input: Self)
        ensures
            input.move_axis == 0,
            !input.run,
    {
        PlayerInput { move_axis: 0, run: false }
    }
}

/// Whether a key for moving left is held.
pub open spec fn left_held(keys: HeldKeys) -> bool {
    keys.arrow_left || keys.key_a
}

/// Whether a key for moving right is held.
pub open spec fn right_held(keys: HeldKeys) -> bool {
    keys.arrow_right || keys.key_d
}

/// The movement axis the held keys ask for: left and right cancel out.
pub open spec fn axis_of(keys: HeldKeys) -> int {
    (if right_held(keys) { 1int } else { 0int }) - (if left_held(keys) { 1int } else { 0int })
}

/// The speed for the run modifier's state.
pub open spec fn speed_for(run: bool) -> int {
    if run {
        RUN_SPEED as int
    } else {
        WALK_SPEED as int
    }
}

/// Whether the sprite is mirrored after moving with `axis`, given how it was:
/// facing follows the direction of movement and stays as it was when standing.
pub open spec fn facing_after(axis: int, flip_x: bool) -> bool {
    if axis > 0 {
        false
    } else if axis < 0 {
        true
    } else {
        flip_x
    }
}

/// Writes the logical input for the held keys.
///
/// The axis is `-1` while only a left key (arrow or `A`) is held, `1` while
/// only a right key (arrow or `D`) is held, and `0` when neither or both
/// directions are held. Either shift key is the run modifier.
pub fn gather_input(keys: &HeldKeys, input: &mut PlayerInput)
    ensures
        final(input).move_axis == axis_of(*keys),
        final(input).run == (keys.shift_left || keys.shift_right),
        -1 <= final(input).move_axis <= 1,
        final(input).move_axis == -1 <==> ((keys.arrow_left || keys.key_a) && !keys.arrow_right
            && !keys.key_d),
        final(input).move_axis == 1 <==> ((keys.arrow_right || keys.key_d) && !keys.arrow_left
            && !keys.key_a),
{
    let mut axis: i8 = 0;
    if keys.arrow_left || keys.key_a {
        axis = axis - 1;
    }
    if keys.arrow_right || keys.key_d {
        axis = axis + 1;
    }
    input.move_axis = axis;
    input.run = keys.shift_left || keys.shift_right;
}

/// Applies the logical input to the monarch: returns her horizontal velocity
/// in world units per second and updates whether her sprite is mirrored.
///
/// The velocity is the axis times the walking or running speed. She faces
/// right when moving right and left when moving left; when the axis is zero
/// her last facing is kept.
pub fn apply_movement(input: &PlayerInput, flip_x: &mut bool) -> (velocity: i32)
    ensures
        velocity == input.move_axis * speed_for(input.run),
        *final(flip_x) == facing_after(input.move_axis as int, *old(flip_x)),
        input.move_axis < 0 ==> *final(flip_x),
        input.move_axis > 0 ==> !*final(flip_x),
        input.move_axis == 0 ==> *final(flip_x) == *old(flip_x),
{
    let speed: i32 = if input.run {
        RUN_SPEED as i32
    } else {
        WALK_SPEED as i32
    };
    let axis: i32 = input.move_axis as i32;
    let velocity: i32 = axis * speed;
    if input.move_axis > 0 {
        *flip_x = false;
    } else if input.move_axis < 0 {
        *flip_x = true;
    }
    velocity
}

/// Holding both directions at once is the same as holding neither: the
/// monarch gets no horizontal input, so she does not move and keeps facing
/// the way she faced.
pub proof fn lemma_opposite_keys_cancel(keys: HeldKeys, flip_x: bool)
    requires
        left_held(keys) == right_held(keys),
    ensures
        axis_of(keys) == 0,
        axis_of(keys) * speed_for(keys.shift_left || keys.shift_right) == 0,
        facing_after(axis_of(keys), flip_x) == flip_x,
{
}

/// The velocity points the way the axis does and, for a full axis, its size
/// is the walking or running speed; running is twice as fast as walking.
pub proof fn lemma_velocity_direction(input: PlayerInput)
    requires
        -1 <= input.move_axis <= 1,
    ensures
        input.move_axis > 0 ==> input.move_axis * speed_for(input.run) == speed_for(input.run),
        input.move_axis < 0 ==> input.move_axis * speed_for(input.run) == -speed_for(input.run),
        input.move_axis == 0 ==> input.move_axis * speed_for(input.run) == 0,
        speed_for(true) == 2 * speed_for(false),
{
    if input.move_axis < 0 {
        assert(input.move_axis == -1);
    }
}

/// The movement axis is decided by the direction keys alone: `-1` exactly
/// when a left key (arrow or `A`) is held and no right key (arrow or `D`),
/// `1` exactly in the mirrored case, `0` otherwise; it is always one of the
/// three.
pub proof fn lemma_axis_from_direction_keys(keys: HeldKeys)
    ensures
        axis_of(keys) == -1 <==> ((keys.arrow_left || keys.key_a) && !(keys.arrow_right
            || keys.key_d)),
        axis_of(keys) == 1 <==> ((keys.arrow_right || keys.key_d) && !(keys.arrow_left
            || keys.key_a)),
        axis_of(keys) == 0 <==> ((keys.arrow_left || keys.key_a) == (keys.arrow_right
            || keys.key_d)),
        -1 <= axis_of(keys) <= 1,
{
}

/// Either key of a direction counts on its own, and the shift keys never
/// change the axis: two key states with the same arrow, `A` and `D` keys give
/// the same axis, and each of `A` and the left arrow alone moves left, each of
/// `D` and the right arrow alone moves right.
pub proof fn lemma_axis_ignores_shift(keys: HeldKeys, other: HeldKeys)
    requires
        keys.arrow_left == other.arrow_left,
        keys.key_a == other.key_a,
        keys.arrow_right == other.arrow_right,
        keys.key_d == other.key_d,
    ensures
        axis_of(keys) == axis_of(other),
        (keys.key_a || keys.arrow_left) && !keys.arrow_right && !keys.key_d ==> axis_of(keys) == -1,
        (keys.key_d || keys.arrow_right) && !keys.arrow_left && !keys.key_a ==> axis_of(keys) == 1,
{
}

/// Moving sets the facing from the direction alone: left makes her face left
/// (mirrored) and right makes her face right, whatever she faced before;
/// standing still keeps the facing.
pub proof fn lemma_facing_follows_direction(axis: int, flip_x: bool)
    ensures
        axis < 0 ==> facing_after(axis, flip_x),
        axis > 0 ==> !facing_after(axis, flip_x),
        axis != 0 ==> facing_after(axis, true) == facing_after(axis, false),
        axis == 0 ==> facing_after(axis, flip_x) == flip_x,
{
}

} // verus!
