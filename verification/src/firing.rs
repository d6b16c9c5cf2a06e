use vstd::prelude::*;
use crate::cooldown::{CooldownTimer, ticked_elapsed};
use crate::geometry::{Translation, SUBPIXELS_PER_PIXEL};
use crate::movement::{Direction, SpriteMovement};

verus! {

/// Speed of a bullet, in pixels per second.
pub const BULLET_SPEED: u32 = 500;

/// How far above the ship's centre a bullet appears, in subpixels (thirty
/// pixels).
pub const BULLET_SPAWN_OFFSET_Y: i64 = 30 * SUBPIXELS_PER_PIXEL;

/// Everything a newly fired bullet starts with: where it appears and how it
/// moves.
#[derive(Clone, Copy, PartialEq, Eq, Structural, Debug)]
pub struct BulletSpawn {
    pub translation: Translation,
    pub movement: SpriteMovement,
}

/// Whether a frame fires: the fire key was freshly pressed and the
/// cooldown, ticked first by the frame's elapsed time, has fully run out.
pub open spec fn fires(timer: CooldownTimer, dt: int, fire_just_pressed: bool) -> bool {
    &&& fire_just_pressed
    &&& ticked_elapsed(timer.elapsed_ms as int, timer.duration_ms as int, dt) >= timer.duration_ms
}

/// Run one frame of the firing rule: tick the cooldown timer by the frame's
/// elapsed time; then, exactly when the fire key was freshly pressed and
/// the cooldown has run out, start the cooldown over and hand back the
/// bullet to spawn: thirty pixels above the ship, flying straight up at the
/// bullet speed.
pub fn bullet_firing(
    player_translation: &Translation,
    timer: &mut CooldownTimer,
    dt_ms: u64,
    fire_just_pressed: bool,
) -> (spawn: Option<BulletSpawn>)
    requires
        player_translation.wf(),
        old(timer).wf(),
    ensures
        final(timer).duration_ms == old(timer).duration_ms,
        final(timer).wf(),
        spawn is Some <==> fires(*old(timer), dt_ms as int, fire_just_pressed),
        spawn is Some ==> final(timer).elapsed_ms == 0,
        spawn is None ==> final(timer).elapsed_ms as int == ticked_elapsed(
            old(timer).elapsed_ms as int,
            old(timer).duration_ms as int,
            dt_ms as int,
        ),
        spawn matches Some(bullet) ==> {
            &&& bullet.translation.x == player_translation.x
            &&& bullet.translation.y == player_translation.y + BULLET_SPAWN_OFFSET_Y
            &&& bullet.movement.direction.x == 0
            &&& bullet.movement.direction.y == 1
            &&& bullet.movement.speed == BULLET_SPEED
            &&& bullet.movement.wf()
        },
{
    timer.tick(dt_ms);
    if fire_just_pressed && timer.finished() {
        let spawn_translation = Translation {
            x: player_translation.x,
            y: player_translation.y + BULLET_SPAWN_OFFSET_Y,
        };
        timer.reset();
        Some(BulletSpawn {
            translation: spawn_translation,
            movement: SpriteMovement { direction: Direction { x: 0, y: 1 }, speed: BULLET_SPEED },
        })
    } else {
        None
    }
}

/// Two shots never fall closer together than the cooldown: a frame that
/// fires leaves the timer freshly reset, and from a freshly reset timer a
/// frame can fire only when at least the whole cooldown duration has
/// elapsed since.
pub proof fn lemma_cooldown_between_shots(timer: CooldownTimer, dt: int, fire_just_pressed: bool)
    requires
        timer.elapsed_ms == 0,
        fires(timer, dt, fire_just_pressed),
    ensures
        dt >= timer.duration_ms,
{
}

/// Elapsed time shown by a cooldown timer of duration `duration` that was
/// freshly reset and then ticked once per frame by the times of `dts`.
pub open spec fn elapsed_after_frames(dts: Seq<int>, duration: int) -> int
    decreases dts.len(),
{
    if dts.len() == 0 {
        0
    } else {
        ticked_elapsed(elapsed_after_frames(dts.drop_last(), duration), duration, dts.last())
    }
}

/// Total real time of the frames of `dts`.
pub open spec fn total_time(dts: Seq<int>) -> int
    decreases dts.len(),
{
    if dts.len() == 0 {
        0
    } else {
        total_time(dts.drop_last()) + dts.last()
    }
}

/// A ticked timer never shows more elapsed time than really passed.
pub proof fn lemma_elapsed_at_most_total(dts: Seq<int>, duration: int)
    ensures
        elapsed_after_frames(dts, duration) <= total_time(dts),
    decreases dts.len(),
{
    if dts.len() > 0 {
        lemma_elapsed_at_most_total(dts.drop_last(), duration);
    }
}

/// The cooldown holds across any run of frames: when a timer was freshly
/// reset, was then ticked once per frame by the times of `dts` without
/// firing, and the current frame fires, the real time that passed since the
/// reset, those frames plus the current one, is at least the cooldown
/// duration.
pub proof fn lemma_cooldown_enforced(dts: Seq<int>, timer: CooldownTimer, dt: int, fire_just_pressed: bool)
    requires
        timer.elapsed_ms == elapsed_after_frames(dts, timer.duration_ms as int),
        fires(timer, dt, fire_just_pressed),
    ensures
        total_time(dts) + dt >= timer.duration_ms,
{
    lemma_elapsed_at_most_total(dts, timer.duration_ms as int);
}

} // verus!
