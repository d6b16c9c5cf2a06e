use vstd::prelude::*;
use crate::movement::SpriteMovement;

verus! {

/// The directional key events of one frame, with the two keys bound to each
/// direction (letter and arrow) already merged: a flag is set when any key
/// bound to that direction was freshly pressed or freshly released this
/// frame.
#[derive(Clone, Copy, PartialEq, Eq, Structural, Debug)]
pub struct FrameInput {
    pub left_just_pressed: bool,
    pub left_just_released: bool,
    pub right_just_pressed: bool,
    pub right_just_released: bool,
    pub up_just_pressed: bool,
    pub up_just_released: bool,
    pub down_just_pressed: bool,
    pub down_just_released: bool,
}

/// One axis after the key events of one of its senses: a fresh press steers
/// the axis to `target`; a fresh release lets go only when the axis was
/// still steered that way, so releasing a key never cancels the opposite
/// sense.
pub open spec fn apply_key_events(axis: int, target: int, just_pressed: bool, just_released: bool) -> int {
    if just_pressed {
        target
    } else if just_released && axis * target > 0 {
        0
    } else {
        axis
    }
}

/// The horizontal axis after one frame of input: the left key's events take
/// effect first, then the right key's.
pub open spec fn next_axis_x(axis: int, input: FrameInput) -> int {
    apply_key_events(
        apply_key_events(axis, -1, input.left_just_pressed, input.left_just_released),
        1,
        input.right_just_pressed,
        input.right_just_released,
    )
}

/// The vertical axis after one frame of input: the up key's events take
/// effect first, then the down key's.
pub open spec fn next_axis_y(axis: int, input: FrameInput) -> int {
    apply_key_events(
        apply_key_events(axis, 1, input.up_just_pressed, input.up_just_released),
        -1,
        input.down_just_pressed,
        input.down_just_released,
    )
}

/// Steer the player's movement by one frame of key events: each direction
/// key freshly pressed points its axis that way, and each freshly released
/// one stops its axis unless the opposite sense has taken over meanwhile.
/// The speed never changes.
pub fn ship_movement_input(movement: &mut SpriteMovement, input: &FrameInput)
    requires
        old(movement).wf(),
    ensures
        final(movement).speed == old(movement).speed,
        final(movement).direction.x as int == next_axis_x(old(movement).direction.x as int, *input),
        final(movement).direction.y as int == next_axis_y(old(movement).direction.y as int, *input),
        final(movement).wf(),
{
    if input.left_just_pressed {
        movement.direction.x = -1;
    } else if input.left_just_released && movement.direction.x < 0 {
        movement.direction.x = 0;
    }

    if input.right_just_pressed {
        movement.direction.x = 1;
    } else if input.right_just_released && movement.direction.x > 0 {
        movement.direction.x = 0;
    }

    if input.up_just_pressed {
        movement.direction.y = 1;
    } else if input.up_just_released && movement.direction.y > 0 {
        movement.direction.y = 0;
    }

    if input.down_just_pressed {
        movement.direction.y = -1;
    } else if input.down_just_released && movement.direction.y < 0 {
        movement.direction.y = 0;
    }
}

/// Freshly pressing a direction key steers its axis to that key's sense,
/// whatever the axis held before; when both keys of one axis are pressed on
/// the same frame, the one handled second (right, and down) wins.
pub proof fn lemma_press_steers_axis(axis: int, input: FrameInput)
    ensures
        input.left_just_pressed && !input.right_just_pressed ==> next_axis_x(axis, input) == -1,
        input.right_just_pressed ==> next_axis_x(axis, input) == 1,
        input.up_just_pressed && !input.down_just_pressed ==> next_axis_y(axis, input) == 1,
        input.down_just_pressed ==> next_axis_y(axis, input) == -1,
{
}

/// On a frame without fresh presses, freshly releasing a direction key
/// stops its axis exactly when the ship still moves that key's way; an
/// axis the opposite sense has taken over is left alone.
pub proof fn lemma_release_stops_axis(axis: int, input: FrameInput)
    requires
        !input.left_just_pressed,
        !input.right_just_pressed,
        !input.up_just_pressed,
        !input.down_just_pressed,
    ensures
        input.left_just_released && axis < 0 ==> next_axis_x(axis, input) == 0,
        input.right_just_released && axis > 0 ==> next_axis_x(axis, input) == 0,
        axis < 0 && !input.left_just_released ==> next_axis_x(axis, input) == axis,
        axis > 0 && !input.right_just_released ==> next_axis_x(axis, input) == axis,
        axis == 0 ==> next_axis_x(axis, input) == 0,
        input.up_just_released && axis > 0 ==> next_axis_y(axis, input) == 0,
        input.down_just_released && axis < 0 ==> next_axis_y(axis, input) == 0,
        axis > 0 && !input.up_just_released ==> next_axis_y(axis, input) == axis,
        axis < 0 && !input.down_just_released ==> next_axis_y(axis, input) == axis,
        axis == 0 ==> next_axis_y(axis, input) == 0,
{
}

} // verus!
