use vstd::prelude::*;
use crate::geometry::{Translation, COORD_LIMIT};
use crate::movement::SpriteMovement;

verus! {

/// A coordinate after the screen-edge check on one axis: pushed back onto
/// the edge only when it lies beyond that edge and the sprite still moves
/// outward past it.
pub open spec fn confined_coord(t: int, d: int, half: int) -> int {
    if t < -half && d < 0 {
        -half
    } else if t > half && d > 0 {
        half
    } else {
        t
    }
}

/// A direction axis after the screen-edge check: zeroed exactly when its
/// coordinate was pushed back onto an edge.
pub open spec fn confined_axis(t: int, d: int, half: int) -> int {
    if t < -half && d < 0 {
        0
    } else if t > half && d > 0 {
        0
    } else {
        d
    }
}

/// Keep the player on screen: on each axis, when the player stands beyond
/// the window's half-extent and still moves outward, put it back on that
/// edge and stop that axis of its movement. A player inside the bounds, or
/// heading back in, is left untouched, and the speed never changes.
pub fn confine_player_to_screen(
    translation: &mut Translation,
    movement: &mut SpriteMovement,
    half_width: i64,
    half_height: i64,
)
    requires
        old(translation).wf(),
        old(movement).wf(),
        0 <= half_width <= COORD_LIMIT,
        0 <= half_height <= COORD_LIMIT,
    ensures
        final(translation).x == confined_coord(
            old(translation).x as int,
            old(movement).direction.x as int,
            half_width as int,
        ),
        final(translation).y == confined_coord(
            old(translation).y as int,
            old(movement).direction.y as int,
            half_height as int,
        ),
        final(movement).direction.x as int == confined_axis(
            old(translation).x as int,
            old(movement).direction.x as int,
            half_width as int,
        ),
        final(movement).direction.y as int == confined_axis(
            old(translation).y as int,
            old(movement).direction.y as int,
            half_height as int,
        ),
        final(movement).speed == old(movement).speed,
        final(translation).wf(),
        final(movement).wf(),
        -half_width <= old(translation).x <= half_width ==> final(translation).x == old(translation).x,
        -half_height <= old(translation).y <= half_height ==> final(translation).y == old(translation).y,
        final(translation).x == old(translation).x || -half_width <= final(translation).x <= half_width,
        final(translation).y == old(translation).y || -half_height <= final(translation).y <= half_height,
{
    if translation.x < -half_width && movement.direction.x < 0 {
        movement.direction.x = 0;
        translation.x = -half_width;
    } else if translation.x > half_width && movement.direction.x > 0 {
        movement.direction.x = 0;
        translation.x = half_width;
    }

    if translation.y < -half_height && movement.direction.y < 0 {
        movement.direction.y = 0;
        translation.y = -half_height;
    } else if translation.y > half_height && movement.direction.y > 0 {
        movement.direction.y = 0;
        translation.y = half_height;
    }
}

} // verus!
