use airplane_game::config::{AIR_SPEED, CLIMB_STEP, SCREEN_WIDTH, VERTICAL_LIMIT};
use airplane_game::input::KeyState;
use airplane_game::plane::Plane;
use airplane_game::sprite::{Picture, Ratio};

fn keys(right: bool, left: bool, up: bool, down: bool) -> KeyState {
    KeyState { right, left, up, down }
}

#[test]
fn plane_starts_at_rest() {
    let plane = Plane::new(64);
    assert_eq!(plane.x(), 400);
    assert_eq!(plane.y(), 400);
    assert_eq!(plane.speed(), 0);
    assert_eq!(plane.angle(), 0);
    assert!(!plane.boost());
    assert_eq!(plane.width(), 64);
}

#[test]
fn idle_plane_stays() {
    let mut plane = Plane::new(64);
    for _ in 0..10 {
        plane.update(keys(false, false, false, false));
    }
    assert_eq!((plane.x(), plane.y(), plane.speed()), (400, 400, 0));
}

#[test]
fn right_key_moves_plane_right() {
    let mut plane = Plane::new(64);
    plane.update(keys(true, false, false, false));
    assert_eq!(plane.speed(), AIR_SPEED);
    assert_eq!(plane.x(), 408);
    plane.update(keys(true, false, false, false));
    assert_eq!(plane.speed(), 8);
    assert_eq!(plane.x(), 416);
    assert_eq!(plane.y(), 400);
}

#[test]
fn left_key_moves_plane_left() {
    let mut plane = Plane::new(64);
    plane.update(keys(false, true, false, false));
    assert_eq!(plane.speed(), -AIR_SPEED);
    assert_eq!(plane.x(), 392);
    plane.update(keys(false, true, false, false));
    assert_eq!(plane.x(), 384);
}

#[test]
fn speed_is_kept_after_release() {
    let mut plane = Plane::new(64);
    plane.update(keys(false, true, false, false));
    plane.update(keys(false, false, false, false));
    assert_eq!(plane.speed(), -8);
    assert_eq!(plane.x(), 392);
}

#[test]
fn both_keys_flip_speed_without_moving() {
    let mut plane = Plane::new(64);
    let both = keys(true, true, false, false);
    plane.update(both);
    assert_eq!((plane.x(), plane.speed()), (400, 8));
    plane.update(both);
    assert_eq!((plane.x(), plane.speed()), (400, -8));
    plane.update(both);
    assert_eq!((plane.x(), plane.speed()), (400, 8));
}

#[test]
fn speed_never_exceeds_air_speed() {
    let mut plane = Plane::new(64);
    let patterns = [
        keys(true, false, false, false),
        keys(true, true, false, false),
        keys(false, true, true, false),
        keys(false, false, false, true),
        keys(true, true, true, true),
    ];
    for round in 0..500 {
        plane.update(patterns[round % patterns.len()]);
        assert!(plane.speed() >= -AIR_SPEED && plane.speed() <= AIR_SPEED);
        assert!(plane.x() >= -64 && plane.x() <= SCREEN_WIDTH + 64);
    }
}

#[test]
fn up_and_down_move_by_half_air_speed() {
    let mut plane = Plane::new(64);
    plane.update(keys(false, false, true, false));
    assert_eq!(plane.y(), 400 - CLIMB_STEP);
    assert_eq!(plane.y(), 396);
    plane.update(keys(false, false, false, true));
    plane.update(keys(false, false, false, true));
    assert_eq!(plane.y(), 404);
    plane.update(keys(false, false, true, true));
    assert_eq!(plane.y(), 404);
    assert_eq!(plane.x(), 400);
}

#[test]
fn plane_wraps_at_right_edge() {
    let mut plane = Plane::new(64);
    let right = keys(true, false, false, false);
    // 400 + 8 * 106 = 1248 is still within 1190 + 64.
    for _ in 0..106 {
        plane.update(right);
    }
    assert_eq!(plane.x(), 1248);
    // 1256 is past it.
    plane.update(right);
    assert_eq!(plane.x(), 0);
    plane.update(right);
    assert_eq!(plane.x(), 8);
}

#[test]
fn plane_wraps_at_left_edge() {
    let mut plane = Plane::new(64);
    let left = keys(false, true, false, false);
    // 400 - 8 * 58 = -64 is exactly the image's width outside.
    for _ in 0..58 {
        plane.update(left);
    }
    assert_eq!(plane.x(), -64);
    plane.update(left);
    assert_eq!(plane.x(), SCREEN_WIDTH);
    plane.update(left);
    assert_eq!(plane.x(), 1182);
}

#[test]
fn narrow_plane_wraps_sooner() {
    let mut plane = Plane::new(0);
    let right = keys(true, false, false, false);
    // 400 + 8 * 98 = 1184, then 1192 > 1190.
    for _ in 0..98 {
        plane.update(right);
    }
    assert_eq!(plane.x(), 1184);
    plane.update(right);
    assert_eq!(plane.x(), 0);
}

#[test]
fn height_stops_at_vertical_limit() {
    let mut plane = Plane::new(64);
    let up = keys(false, false, true, false);
    let steps = (VERTICAL_LIMIT + 400) / CLIMB_STEP;
    for _ in 0..steps {
        plane.update(up);
    }
    assert_eq!(plane.y(), -VERTICAL_LIMIT);
    assert_eq!(plane.y(), -67_108_864);
    plane.update(up);
    assert_eq!(plane.y(), -VERTICAL_LIMIT);
    plane.update(keys(false, false, true, true));
    assert_eq!(plane.y(), -VERTICAL_LIMIT + 4);
}

#[test]
fn boost_switches() {
    let mut plane = Plane::new(64);
    plane.set_boost(true);
    assert!(plane.boost());
    assert_eq!((plane.x(), plane.y(), plane.speed()), (400, 400, 0));
    plane.set_boost(false);
    assert!(!plane.boost());
}

#[test]
fn plane_sprite() {
    let mut plane = Plane::new(64);
    plane.update(keys(true, false, true, false));
    let sprite = plane.draw();
    assert_eq!(sprite.picture, Picture::Plane);
    assert_eq!((sprite.x, sprite.y), (408, 396));
    assert_eq!(sprite.scale_x, Ratio { num: 1, den: 8 });
    assert_eq!(sprite.scale_y, Ratio { num: 1, den: 8 });
    assert_eq!(sprite.offset_x, Ratio { num: 1, den: 2 });
    assert_eq!(sprite.offset_y, Ratio { num: 1, den: 2 });
    assert_eq!(sprite.rotation, 0);
}
