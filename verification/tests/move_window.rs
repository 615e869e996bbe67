use media_control_lib::config::Config;
use media_control_lib::move_window::{move_window_actions, Direction};
use media_control_lib::position::MinifyState;
use media_control_lib::window::{MediaWindow, Priority};

#[test]
fn move_window_direction_from_char_valid() {
    assert_eq!(Direction::from_char('h'), Some(Direction::Left));
    assert_eq!(Direction::from_char('j'), Some(Direction::Down));
    assert_eq!(Direction::from_char('k'), Some(Direction::Up));
    assert_eq!(Direction::from_char('l'), Some(Direction::Right));
}

#[test]
fn move_window_direction_from_char_invalid() {
    assert_eq!(Direction::from_char('x'), None);
    assert_eq!(Direction::from_char('H'), None);
    assert_eq!(Direction::from_char('a'), None);
    assert_eq!(Direction::from_char(' '), None);
}

#[test]
fn move_window_direction_from_str_valid() {
    assert_eq!(Direction::from_str("h"), Some(Direction::Left));
    assert_eq!(Direction::from_str("j"), Some(Direction::Down));
    assert_eq!(Direction::from_str("k"), Some(Direction::Up));
    assert_eq!(Direction::from_str("l"), Some(Direction::Right));
    assert_eq!(Direction::parse("h"), Some(Direction::Left));
    assert_eq!(Direction::parse("j"), Some(Direction::Down));
    assert_eq!(Direction::parse("k"), Some(Direction::Up));
    assert_eq!(Direction::parse("l"), Some(Direction::Right));
}

#[test]
fn move_window_direction_from_str_intuitive_names() {
    assert_eq!(Direction::from_str("left"), Some(Direction::Left));
    assert_eq!(Direction::from_str("right"), Some(Direction::Right));
    assert_eq!(Direction::from_str("up"), Some(Direction::Up));
    assert_eq!(Direction::from_str("down"), Some(Direction::Down));
    assert_eq!(Direction::parse("left"), Some(Direction::Left));
    assert_eq!(Direction::parse("right"), Some(Direction::Right));
    assert_eq!(Direction::parse("up"), Some(Direction::Up));
    assert_eq!(Direction::parse("down"), Some(Direction::Down));
}

#[test]
fn move_window_direction_from_str_case_insensitive() {
    assert_eq!(Direction::from_str("LEFT"), Some(Direction::Left));
    assert_eq!(Direction::from_str("Right"), Some(Direction::Right));
    assert_eq!(Direction::from_str("UP"), Some(Direction::Up));
    assert_eq!(Direction::from_str("DoWn"), Some(Direction::Down));
    assert_eq!(Direction::parse("LEFT"), Some(Direction::Left));
    assert_eq!(Direction::parse("Right"), Some(Direction::Right));
    assert_eq!(Direction::parse("UP"), Some(Direction::Up));
    assert_eq!(Direction::parse("DoWn"), Some(Direction::Down));
}

#[test]
fn move_window_direction_from_str_vim_fallback() {
    assert_eq!(Direction::from_str("hjkl"), Some(Direction::Left));
    assert_eq!(Direction::parse("hjkl"), Some(Direction::Left));
}

#[test]
fn move_window_direction_from_str_empty() {
    assert_eq!(Direction::from_str(""), None);
    assert_eq!(Direction::parse(""), None);
}

#[test]
fn move_window_direction_display() {
    assert_eq!(Direction::Left.to_string(), "left");
    assert_eq!(Direction::Down.to_string(), "down");
    assert_eq!(Direction::Up.to_string(), "up");
    assert_eq!(Direction::Right.to_string(), "right");
}

#[test]
fn move_window_direction_debug() {
    assert_eq!(format!("{:?}", Direction::Left), "Left");
    assert_eq!(format!("{:?}", Direction::Down), "Down");
    assert_eq!(format!("{:?}", Direction::Up), "Up");
    assert_eq!(format!("{:?}", Direction::Right), "Right");
}

#[test]
fn move_window_direction_clone_copy() {
    let dir = Direction::Left;
    #[allow(clippy::clone_on_copy)]
    let cloned = dir.clone();
    let copied = dir;
    assert_eq!(dir, cloned);
    assert_eq!(dir, copied);
}

#[test]
fn move_window_direction_equality() {
    assert_eq!(Direction::Left, Direction::Left);
    assert_ne!(Direction::Left, Direction::Right);
    assert_ne!(Direction::Up, Direction::Down);
}

fn media(x: i32, y: i32, fullscreen: u8) -> MediaWindow {
    MediaWindow {
        address: "0xd1".to_string(),
        class: "mpv".to_string(),
        title: "video.mp4".to_string(),
        x,
        y,
        width: 600,
        height: 338,
        floating: true,
        pinned: true,
        fullscreen,
        pid: 0,
        always_pin: false,
        priority: Priority::Other,
    }
}

fn normal() -> MinifyState {
    MinifyState { minified: false, scaled_width: 600, scaled_height: 338 }
}

#[test]
fn move_left_keeps_row_and_resizes() {
    let config = Config::default();
    let r = move_window_actions(&config, &media(1272, 712, 0), Direction::Left, normal()).unwrap();
    assert_eq!(
        r,
        vec![
            "movewindowpixel exact 48 712,address:0xd1".to_string(),
            "resizewindowpixel exact 600 338,address:0xd1".to_string(),
        ]
    );
}

#[test]
fn move_up_keeps_column() {
    let config = Config::default();
    let r = move_window_actions(&config, &media(1272, 712, 0), Direction::Up, normal()).unwrap();
    assert_eq!(r[0], "movewindowpixel exact 1272 48,address:0xd1");
}

#[test]
fn move_fullscreen_window_does_nothing() {
    let config = Config::default();
    assert!(move_window_actions(&config, &media(0, 0, 2), Direction::Left, normal()).is_none());
}

#[test]
fn move_right_when_minified_shifts_by_size_reduction() {
    let config = Config::default();
    let m = MinifyState { minified: true, scaled_width: 300, scaled_height: 169 };
    let r = move_window_actions(&config, &media(48, 48, 0), Direction::Right, m).unwrap();
    assert_eq!(r[0], "movewindowpixel exact 1572 48,address:0xd1");
    assert_eq!(r[1], "resizewindowpixel exact 300 169,address:0xd1");
}
