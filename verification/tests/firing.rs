use ship_game::cooldown::CooldownTimer;
use ship_game::firing::{bullet_firing, BULLET_SPEED};
use ship_game::geometry::Translation;
use ship_game::movement::Direction;
use ship_game::player::{initial_player, FIRE_COOLDOWN_MS, PLAYER_SPEED};

#[test]
fn initial_player_is_centred_still_and_cooling_down() {
    let p = initial_player();
    assert_eq!(p.translation, Translation { x: 0, y: 0 });
    assert_eq!(p.movement.direction, Direction { x: 0, y: 0 });
    assert_eq!(p.movement.speed, PLAYER_SPEED);
    assert_eq!(p.cooldown.duration_ms, FIRE_COOLDOWN_MS);
    assert_eq!(p.cooldown.elapsed_ms, 0);
}

#[test]
fn timer_accumulates_and_finishes() {
    let mut timer = CooldownTimer::new(100);
    assert!(!timer.finished());
    timer.tick(60);
    assert!(!timer.finished());
    assert_eq!(timer.elapsed_ms, 60);
    timer.tick(40);
    assert!(timer.finished());
    assert_eq!(timer.elapsed_ms, 100);
}

#[test]
fn timer_saturates_at_its_duration() {
    let mut timer = CooldownTimer::new(100);
    timer.tick(10_000);
    assert_eq!(timer.elapsed_ms, 100);
    assert!(timer.finished());
}

#[test]
fn timer_reset_starts_over() {
    let mut timer = CooldownTimer::new(100);
    timer.tick(150);
    timer.reset();
    assert_eq!(timer.elapsed_ms, 0);
    assert!(!timer.finished());
    timer.tick(99);
    assert!(!timer.finished());
}

#[test]
fn no_shot_before_the_cooldown_has_elapsed() {
    let p = initial_player();
    let mut timer = p.cooldown;
    let spawn = bullet_firing(&p.translation, &mut timer, 99, true);
    assert!(spawn.is_none());
    assert_eq!(timer.elapsed_ms, 99);
}

#[test]
fn no_shot_without_a_fresh_press() {
    let p = initial_player();
    let mut timer = p.cooldown;
    timer.tick(1000);
    let spawn = bullet_firing(&p.translation, &mut timer, 16, false);
    assert!(spawn.is_none());
    assert_eq!(timer.elapsed_ms, timer.duration_ms);
}

#[test]
fn shot_spawns_above_the_ship_flying_up() {
    let mut timer = CooldownTimer::new(100);
    let at = Translation { x: 12_000, y: -5_000 };
    let spawn = bullet_firing(&at, &mut timer, 100, true);
    let bullet = spawn.expect("the cooldown elapsed and fire was pressed");
    assert_eq!(bullet.translation, Translation { x: 12_000, y: 25_000 });
    assert_eq!(bullet.movement.direction, Direction { x: 0, y: 1 });
    assert_eq!(bullet.movement.speed, BULLET_SPEED);
    assert_eq!(timer.elapsed_ms, 0);
}

#[test]
fn firing_resets_the_cooldown() {
    let p = initial_player();
    let mut timer = p.cooldown;
    let first = bullet_firing(&p.translation, &mut timer, 100, true);
    assert!(first.is_some());
    // Holding the rhythm: a fresh press right away finds the timer reset.
    let second = bullet_firing(&p.translation, &mut timer, 0, true);
    assert!(second.is_none());
    let third = bullet_firing(&p.translation, &mut timer, 99, true);
    assert!(third.is_none());
    let fourth = bullet_firing(&p.translation, &mut timer, 1, true);
    assert!(fourth.is_some());
}
