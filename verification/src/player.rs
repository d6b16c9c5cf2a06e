use vstd::prelude::*;
use crate::cooldown::CooldownTimer;
use crate::geometry::Translation;
use crate::movement::{Direction, SpriteMovement};

verus! {

/// Speed of the player's ship, in pixels per second.
pub const PLAYER_SPEED: u32 = 200;

/// Shortest time between two shots, in milliseconds.
pub const FIRE_COOLDOWN_MS: u64 = 100;

/// The player's whole logical state at the start of the game.
#[derive(Clone, Copy, PartialEq, Eq, Structural, Debug)]
pub struct PlayerInit {
    pub translation: Translation,
    pub movement: SpriteMovement,
    pub cooldown: CooldownTimer,
}

/// The state the player's ship starts the game in: centred on the screen,
/// standing still at the player speed, with the fire cooldown yet to run
/// its first course, so the first shot waits for the whole cooldown.
pub fn initial_player() -> (player: PlayerInit)
    ensures
        player.translation.x == 0,
        player.translation.y == 0,
        player.movement.direction.x == 0,
        player.movement.direction.y == 0,
        player.movement.speed == PLAYER_SPEED,
        player.cooldown.duration_ms == FIRE_COOLDOWN_MS,
        player.cooldown.elapsed_ms == 0,
        player.translation.wf(),
        player.movement.wf(),
        player.cooldown.wf(),
{
    PlayerInit {
        translation: Translation { x: 0, y: 0 },
        movement: SpriteMovement { direction: Direction { x: 0, y: 0 }, speed: PLAYER_SPEED },
        cooldown: CooldownTimer::new(FIRE_COOLDOWN_MS),
    }
}

} // verus!
