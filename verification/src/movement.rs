use vstd::prelude::*;
use crate::geometry::Translation;

verus! {

/// Machine limit on a movement speed, in pixels per second: keeps the
/// product of speed, frame time and the diagonal scale inside `u64`.
pub const MAX_SPEED: u32 = 1_000_000;

/// Machine limit on one frame's elapsed time, in milliseconds (a thousand
/// seconds): same purpose as `MAX_SPEED`.
pub const MAX_FRAME_MS: u32 = 1_000_000;

/// Numerator and denominator of the rational that stands for one over the
/// square root of two: the factor that turns a diagonal direction into a
/// unit vector. 408 / 577 falls short of the true value by less than two
/// millionths.
pub const DIAGONAL_NUM: u64 = 408;

/// See `DIAGONAL_NUM`.
pub const DIAGONAL_DEN: u64 = 577;

/// One axis of a direction: -1, 0 or +1.
pub open spec fn is_axis(v: i8) -> bool {
    v == -1 || v == 0 || v == 1
}

/// Which way a sprite is headed: each component picks one of the two senses
/// of its axis or leaves it still.
#[derive(Clone, Copy, PartialEq, Eq, Structural, Debug)]
pub struct Direction {
    pub x: i8,
    pub y: i8,
}

impl Direction {
    pub open spec fn wf(self) -> bool {
        is_axis(self.x) && is_axis(self.y)
    }
}

/// Movement carried by a sprite: a direction and a speed in pixels per
/// second.
#[derive(Clone, Copy, PartialEq, Eq, Structural, Debug)]
pub struct SpriteMovement {
    pub direction: Direction,
    pub speed: u32,
}

impl SpriteMovement {
    pub open spec fn wf(self) -> bool {
        self.direction.wf() && self.speed <= MAX_SPEED
    }
}

/// One frame's displacement along one axis, in subpixels: zero when the
/// axis is still; speed times elapsed time when only this axis moves; and
/// scaled down by the diagonal factor, magnitude rounded toward zero, when
/// the other axis moves too, so that a diagonal mover covers the same
/// distance per frame as a straight one.
pub open spec fn axis_displacement(d: int, other: int, speed: int, dt: int) -> int {
    if d == 0 {
        0
    } else if other == 0 {
        d * (speed * dt)
    } else {
        d * ((speed * dt * DIAGONAL_NUM) / DIAGONAL_DEN as int)
    }
}

/// Magnitude of one frame's displacement along a moving axis, in subpixels.
fn frame_step(speed: u32, dt_ms: u32, diagonal: bool) -> (step: u64)
    requires
        speed <= MAX_SPEED,
        dt_ms <= MAX_FRAME_MS,
    ensures
        !diagonal ==> step == speed * dt_ms,
        diagonal ==> step == (speed * dt_ms * DIAGONAL_NUM) / DIAGONAL_DEN as int,
        step <= MAX_SPEED * MAX_FRAME_MS,
{
    proof {
        assert(speed * dt_ms <= 1_000_000_000_000) by (nonlinear_arith)
            requires
                speed <= 1_000_000,
                dt_ms <= 1_000_000,
        ;
    }
    let base: u64 = (speed as u64) * (dt_ms as u64);
    if diagonal {
        let scaled = base * DIAGONAL_NUM;
        proof {
            vstd::arithmetic::div_mod::lemma_div_is_ordered(
                scaled as int,
                408_000_000_000_000int,
                DIAGONAL_DEN as int,
            );
        }
        scaled / DIAGONAL_DEN
    } else {
        base
    }
}

/// Advance one sprite by one frame: the translation moves along the
/// movement's direction, made a unit vector when it is diagonal, at the
/// movement's speed for `dt_ms` milliseconds.
pub fn move_sprite(translation: &mut Translation, movement: &SpriteMovement, dt_ms: u32)
    requires
        old(translation).wf(),
        movement.wf(),
        dt_ms <= MAX_FRAME_MS,
    ensures
        final(translation).x == old(translation).x + axis_displacement(
            movement.direction.x as int,
            movement.direction.y as int,
            movement.speed as int,
            dt_ms as int,
        ),
        final(translation).y == old(translation).y + axis_displacement(
            movement.direction.y as int,
            movement.direction.x as int,
            movement.speed as int,
            dt_ms as int,
        ),
{
    let dx = movement.direction.x;
    let dy = movement.direction.y;
    let diagonal = dx != 0 && dy != 0;
    if dx != 0 {
        let step = frame_step(movement.speed, dt_ms, diagonal) as i64;
        if dx == 1 {
            translation.x = translation.x + step;
        } else {
            translation.x = translation.x - step;
        }
    }
    if dy != 0 {
        let step = frame_step(movement.speed, dt_ms, diagonal) as i64;
        if dy == 1 {
            translation.y = translation.y + step;
        } else {
            translation.y = translation.y - step;
        }
    }
}

/// One sprite of the scene: where it stands and how it moves.
#[derive(Clone, Copy, PartialEq, Eq, Structural, Debug)]
pub struct Sprite {
    pub translation: Translation,
    pub movement: SpriteMovement,
}

impl Sprite {
    pub open spec fn wf(self) -> bool {
        self.translation.wf() && self.movement.wf()
    }
}

/// Advance every sprite of the scene by one frame, each along its own
/// movement, none gaining or losing a sprite.
pub fn sprite_movement(sprites: &mut Vec<Sprite>, dt_ms: u32)
    requires
        forall|i: int| 0 <= i < old(sprites)@.len() ==> (#[trigger] old(sprites)@[i]).wf(),
        dt_ms <= MAX_FRAME_MS,
    ensures
        final(sprites)@.len() == old(sprites)@.len(),
        forall|i: int| #![auto] 0 <= i < old(sprites)@.len() ==> {
            &&& final(sprites)@[i].movement == old(sprites)@[i].movement
            &&& final(sprites)@[i].translation.x == old(sprites)@[i].translation.x
                + axis_displacement(
                    old(sprites)@[i].movement.direction.x as int,
                    old(sprites)@[i].movement.direction.y as int,
                    old(sprites)@[i].movement.speed as int,
                    dt_ms as int,
                )
            &&& final(sprites)@[i].translation.y == old(sprites)@[i].translation.y
                + axis_displacement(
                    old(sprites)@[i].movement.direction.y as int,
                    old(sprites)@[i].movement.direction.x as int,
                    old(sprites)@[i].movement.speed as int,
                    dt_ms as int,
                )
        },
{
    let n = sprites.len();
    let mut i: usize = 0;
    while i < n
        invariant
            i <= n,
            n == sprites@.len(),
            sprites@.len() == old(sprites)@.len(),
            dt_ms <= MAX_FRAME_MS,
            forall|j: int| 0 <= j < old(sprites)@.len() ==> (#[trigger] old(sprites)@[j]).wf(),
            forall|j: int| i <= j < n ==> #[trigger] sprites@[j] == old(sprites)@[j],
            forall|j: int| #![auto] 0 <= j < i ==> {
                &&& sprites@[j].movement == old(sprites)@[j].movement
                &&& sprites@[j].translation.x == old(sprites)@[j].translation.x
                    + axis_displacement(
                        old(sprites)@[j].movement.direction.x as int,
                        old(sprites)@[j].movement.direction.y as int,
                        old(sprites)@[j].movement.speed as int,
                        dt_ms as int,
                    )
                &&& sprites@[j].translation.y == old(sprites)@[j].translation.y
                    + axis_displacement(
                        old(sprites)@[j].movement.direction.y as int,
                        old(sprites)@[j].movement.direction.x as int,
                        old(sprites)@[j].movement.speed as int,
                        dt_ms as int,
                    )
            },
        decreases n - i,
    {
        let s = sprites[i];
        let mut t = s.translation;
        move_sprite(&mut t, &s.movement, dt_ms);
        sprites.set(i, Sprite { translation: t, movement: s.movement });
        i = i + 1;
    }
}

} // verus!
