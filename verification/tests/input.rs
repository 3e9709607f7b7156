use airplane_game::config::{
    AIR_SPEED, CLIMB_STEP, GRID_CELL_HEIGHT, GRID_CELL_WIDTH, GRID_HEIGHT, GRID_WIDTH,
    MILLIS_PER_UPDATE, NANOS_PER_UPDATE, SCREEN_HEIGHT, SCREEN_WIDTH, UPDATES_PER_SECOND,
};
use airplane_game::input::{Key, KeyState};

#[test]
fn no_key_is_held_at_first() {
    assert_eq!(KeyState::new(), KeyState { right: false, left: false, up: false, down: false });
}

#[test]
fn press_sets_the_flag_of_the_key() {
    let mut keys = KeyState::new();
    keys.press(Key::Right);
    assert_eq!(keys, KeyState { right: true, left: false, up: false, down: false });
    keys.press(Key::Left);
    assert_eq!(keys, KeyState { right: true, left: true, up: false, down: false });
    keys.press(Key::Up);
    assert_eq!(keys, KeyState { right: true, left: true, up: true, down: false });
    keys.press(Key::Down);
    assert_eq!(keys, KeyState { right: true, left: true, up: true, down: true });
}

#[test]
fn release_clears_the_flag_of_the_key() {
    let mut keys = KeyState { right: true, left: true, up: true, down: true };
    keys.release(Key::Up);
    assert_eq!(keys, KeyState { right: true, left: true, up: false, down: true });
    keys.release(Key::Right);
    assert_eq!(keys, KeyState { right: false, left: true, up: false, down: true });
    keys.release(Key::Down);
    keys.release(Key::Left);
    assert_eq!(keys, KeyState::new());
}

#[test]
fn other_keys_change_no_flag() {
    let mut keys = KeyState { right: true, left: false, up: false, down: true };
    for key in [Key::Space, Key::F, Key::Other] {
        keys.press(key);
        assert_eq!(keys, KeyState { right: true, left: false, up: false, down: true });
        keys.release(key);
        assert_eq!(keys, KeyState { right: true, left: false, up: false, down: true });
    }
}

#[test]
fn press_and_release_are_idempotent() {
    let mut keys = KeyState::new();
    keys.press(Key::Left);
    keys.press(Key::Left);
    assert_eq!(keys, KeyState { right: false, left: true, up: false, down: false });
    keys.release(Key::Left);
    keys.release(Key::Left);
    assert_eq!(keys, KeyState::new());
}

#[test]
fn derived_constants() {
    assert_eq!(SCREEN_WIDTH, 1190);
    assert_eq!(SCREEN_HEIGHT, 680);
    assert_eq!(SCREEN_WIDTH, (GRID_WIDTH * GRID_CELL_WIDTH) as i32);
    assert_eq!(SCREEN_HEIGHT, (GRID_HEIGHT * GRID_CELL_HEIGHT) as i32);
    assert_eq!(MILLIS_PER_UPDATE, 8);
    assert_eq!(MILLIS_PER_UPDATE, 1000 / UPDATES_PER_SECOND);
    assert_eq!(NANOS_PER_UPDATE, 8_000_000);
    assert_eq!(CLIMB_STEP, AIR_SPEED / 2);
}
