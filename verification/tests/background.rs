use airplane_game::background::Background;
use airplane_game::config::{SCREEN_HEIGHT, SCREEN_WIDTH, SCROLL_STEP};
use airplane_game::sprite::{Picture, Ratio};

#[test]
fn background_starts_at_left_edge() {
    let background = Background::new(800, 600);
    assert_eq!(background.x(), 0);
    assert_eq!(background.x2(), 0);
    assert_eq!(background.width(), 800);
    assert_eq!(background.height(), 600);
}

#[test]
fn first_step_puts_second_copy_at_right_edge() {
    let mut background = Background::new(800, 600);
    background.update();
    assert_eq!(background.x(), 0);
    assert_eq!(background.x2(), 1190);
}

#[test]
fn background_scrolls_by_three() {
    let mut background = Background::new(800, 600);
    background.update();
    background.update();
    assert_eq!(background.x(), -SCROLL_STEP);
    assert_eq!(background.x2(), 1187);
    background.update();
    assert_eq!(background.x(), -6);
    assert_eq!(background.x2(), 1184);
}

#[test]
fn background_wraps_when_second_copy_leaves() {
    let mut background = Background::new(800, 600);
    background.update();
    // 1190 - 3 * 396 = 2 is the last place on the screen.
    for _ in 0..396 {
        background.update();
    }
    assert_eq!(background.x2(), 2);
    assert_eq!(background.x(), -1188);
    background.update();
    assert_eq!(background.x2(), SCREEN_WIDTH);
    assert_eq!(background.x(), 0);
}

#[test]
fn copies_stay_one_screen_apart() {
    let mut background = Background::new(800, 600);
    for _ in 0..2000 {
        background.update();
        assert_eq!(background.x2() - background.x(), SCREEN_WIDTH);
        assert!(background.x2() >= 0 && background.x2() <= SCREEN_WIDTH);
    }
}

#[test]
fn background_sprites() {
    let mut background = Background::new(800, 600);
    background.update();
    background.update();
    let (first, second) = background.draw();
    assert_eq!(first.picture, Picture::Background);
    assert_eq!((first.x, first.y), (-3, 0));
    assert_eq!((second.x, second.y), (1187, 0));
    assert_eq!(first.scale_x, Ratio { num: SCREEN_WIDTH, den: 800 });
    assert_eq!(first.scale_y, Ratio { num: SCREEN_HEIGHT, den: 600 });
    assert_eq!(first.offset_x, Ratio { num: 0, den: 1 });
    assert_eq!(first.offset_y, Ratio { num: 0, den: 1 });
    assert_eq!(first.rotation, 0);
    assert_eq!(second.scale_x, first.scale_x);
    assert_eq!(second.scale_y, first.scale_y);
    assert_eq!(second.picture, Picture::Background);
}
