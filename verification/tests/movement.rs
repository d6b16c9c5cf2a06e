use ship_game::geometry::Translation;
use ship_game::movement::{move_sprite, sprite_movement, Direction, Sprite, SpriteMovement};

#[test]
fn straight_step_is_speed_times_time() {
    // 200 px/s for 16 ms is exactly 3200 subpixels (3.2 px).
    let mut t = Translation { x: 10, y: 20 };
    let m = SpriteMovement { direction: Direction { x: 1, y: 0 }, speed: 200 };
    move_sprite(&mut t, &m, 16);
    assert_eq!(t, Translation { x: 3210, y: 20 });
}

#[test]
fn step_follows_the_direction_sign() {
    let mut t = Translation { x: 0, y: 0 };
    let m = SpriteMovement { direction: Direction { x: 0, y: -1 }, speed: 200 };
    move_sprite(&mut t, &m, 16);
    assert_eq!(t, Translation { x: 0, y: -3200 });
}

#[test]
fn diagonal_step_is_scaled_down() {
    // 3200 subpixels scaled by 408/577, rounded down: 2262 on each axis.
    let mut t = Translation { x: 0, y: 0 };
    let m = SpriteMovement { direction: Direction { x: 1, y: -1 }, speed: 200 };
    move_sprite(&mut t, &m, 16);
    assert_eq!(t, Translation { x: 2262, y: -2262 });
}

#[test]
fn still_sprite_stays_put() {
    let mut t = Translation { x: 123, y: -456 };
    let m = SpriteMovement { direction: Direction { x: 0, y: 0 }, speed: 200 };
    move_sprite(&mut t, &m, 16);
    assert_eq!(t, Translation { x: 123, y: -456 });
}

#[test]
fn zero_elapsed_time_moves_nothing() {
    let mut t = Translation { x: 7, y: 8 };
    let m = SpriteMovement { direction: Direction { x: 1, y: 1 }, speed: 200 };
    move_sprite(&mut t, &m, 0);
    assert_eq!(t, Translation { x: 7, y: 8 });
}

#[test]
fn bullet_speed_step() {
    // A bullet flies straight up at 500 px/s: 8000 subpixels in 16 ms.
    let mut t = Translation { x: 0, y: 30_000 };
    let m = SpriteMovement { direction: Direction { x: 0, y: 1 }, speed: 500 };
    move_sprite(&mut t, &m, 16);
    assert_eq!(t, Translation { x: 0, y: 38_000 });
}

#[test]
fn whole_scene_moves_each_sprite_by_its_own_movement() {
    let ship = Sprite {
        translation: Translation { x: 0, y: 0 },
        movement: SpriteMovement { direction: Direction { x: -1, y: 0 }, speed: 200 },
    };
    let bullet = Sprite {
        translation: Translation { x: 50, y: 100 },
        movement: SpriteMovement { direction: Direction { x: 0, y: 1 }, speed: 500 },
    };
    let mut scene = vec![ship, bullet];
    sprite_movement(&mut scene, 16);
    assert_eq!(scene.len(), 2);
    assert_eq!(scene[0].translation, Translation { x: -3200, y: 0 });
    assert_eq!(scene[0].movement, ship.movement);
    assert_eq!(scene[1].translation, Translation { x: 50, y: 8100 });
    assert_eq!(scene[1].movement, bullet.movement);
}

#[test]
fn empty_scene_is_fine() {
    let mut scene: Vec<Sprite> = vec![];
    sprite_movement(&mut scene, 16);
    assert_eq!(scene.len(), 0);
}
