use media_control_lib::avoid::{
    avoid_plan, calculate_target_position, count_non_media_windows, find_focused_address,
    get_position_pair,
};
use media_control_lib::config::{Config, PositionOverride};
use media_control_lib::hyprland::{Client, Workspace};
use media_control_lib::position::MinifyState;
use media_control_lib::window::{MediaWindow, Priority};

fn normal() -> MinifyState {
    MinifyState { minified: false, scaled_width: 300, scaled_height: 169 }
}

#[allow(clippy::too_many_arguments)]
fn client(addr: &str, class: &str, at: [i32; 2], size: [i32; 2], floating: bool, focus: i32, monitor: i32) -> Client {
    Client {
        address: addr.to_string(),
        mapped: true,
        hidden: false,
        at,
        size,
        workspace: Workspace { id: 1, name: "1".to_string() },
        floating,
        pinned: false,
        fullscreen: 0,
        monitor,
        pid: 0,
        class: class.to_string(),
        title: class.to_string(),
        focus_history_id: focus,
    }
}

fn media_of(c: &Client) -> MediaWindow {
    MediaWindow {
        address: c.address.clone(),
        class: c.class.clone(),
        title: c.title.clone(),
        x: c.at[0],
        y: c.at[1],
        width: c.size[0],
        height: c.size[1],
        floating: c.floating,
        pinned: c.pinned,
        fullscreen: c.fullscreen,
        pid: c.pid,
        always_pin: false,
        priority: Priority::Other,
    }
}

#[test]
fn scratchpad_focus_does_nothing() {
    let config = Config::default();
    let clients = vec![
        client("0xb1", "firefox", [0, 0], [1920, 1080], false, 0, -1),
        client("0xd1", "mpv", [100, 100], [600, 338], true, 1, 0),
    ];
    let media = vec![media_of(&clients[1])];
    let plan = avoid_plan(&config, &clients, 0, &[false, true], &media, None, normal());
    assert!(plan.moves.is_empty());
    assert!(plan.restore_focus.is_none());
}

#[test]
fn single_window_media_goes_to_primary_corner() {
    let config = Config::default();
    let clients = vec![
        client("0xb1", "firefox", [0, 0], [1920, 1080], false, 0, 0),
        client("0xd1", "mpv", [100, 100], [600, 338], true, 1, 0),
    ];
    let media = vec![media_of(&clients[1])];
    let plan = avoid_plan(&config, &clients, 0, &[false, true], &media, None, normal());
    assert_eq!(plan.moves.len(), 1);
    let mv = &plan.moves[0];
    assert_eq!((mv.address.as_str(), mv.x, mv.y, mv.width, mv.height), ("0xd1", 1272, 712, 600, 338));
}

#[test]
fn single_window_floating_focus_in_the_way_uses_secondary() {
    let config = Config::default();
    let clients = vec![
        client("0xb1", "kitty", [1200, 700], [400, 300], true, 0, 0),
        client("0xd1", "mpv", [1272, 712], [600, 338], true, 1, 0),
    ];
    let media = vec![media_of(&clients[1])];
    let plan = avoid_plan(&config, &clients, 0, &[false, true], &media, None, normal());
    assert_eq!(plan.moves.len(), 1);
    assert_eq!((plan.moves[0].x, plan.moves[0].y), (48, 712));
}

#[test]
fn already_in_place_does_not_move() {
    let config = Config::default();
    let clients = vec![
        client("0xb1", "firefox", [0, 0], [800, 600], false, 0, 0),
        client("0xd1", "mpv", [1274, 710], [600, 338], true, 1, 0),
    ];
    let media = vec![media_of(&clients[1])];
    let plan = avoid_plan(&config, &clients, 0, &[false, true], &media, None, normal());
    assert!(plan.moves.is_empty());
}

#[test]
fn mouseover_toggles_and_restores_focus() {
    let config = Config::default();
    let clients = vec![
        client("0xd1", "mpv", [1272, 712], [600, 338], true, 0, 0),
        client("0xb1", "firefox", [0, 0], [1920, 1080], false, 1, 0),
    ];
    let media = vec![media_of(&clients[0])];
    let plan = avoid_plan(&config, &clients, 0, &[true, false], &media, Some("0xb1"), normal());
    assert_eq!(plan.moves.len(), 1);
    assert_eq!((plan.moves[0].x, plan.moves[0].y), (48, 712));
    assert_eq!(plan.restore_focus.as_deref(), Some("0xb1"));
}

#[test]
fn overlap_moves_to_the_other_side_when_clear() {
    let config = Config::default();
    let clients = vec![
        client("0xb1", "kitty", [1000, 600], [500, 400], false, 0, 0),
        client("0xb2", "firefox", [0, 0], [300, 300], false, 2, 0),
        client("0xd1", "mpv", [1272, 712], [600, 338], true, 1, 0),
    ];
    let media = vec![media_of(&clients[2])];
    let plan = avoid_plan(&config, &clients, 0, &[false, false, true], &media, None, normal());
    assert_eq!(plan.moves.len(), 1);
    assert_eq!((plan.moves[0].x, plan.moves[0].y), (48, 712));
}

#[test]
fn fullscreen_focused_media_is_left_alone() {
    let config = Config::default();
    let mut m = client("0xd1", "mpv", [0, 0], [1920, 1080], true, 0, 0);
    m.fullscreen = 2;
    let clients = vec![m, client("0xb1", "firefox", [0, 0], [800, 600], false, 1, 0)];
    let media = vec![media_of(&clients[0])];
    let plan = avoid_plan(&config, &clients, 0, &[true, false], &media, Some("0xb1"), normal());
    assert!(plan.moves.is_empty() && plan.restore_focus.is_none());
}

#[test]
fn non_media_windows_are_counted_per_workspace_and_monitor() {
    let clients = vec![
        client("0xb1", "a", [0, 0], [10, 10], false, 0, 0),
        client("0xb2", "b", [0, 0], [10, 10], false, 1, 1),
        client("0xd1", "mpv", [0, 0], [10, 10], true, 2, 0),
    ];
    assert_eq!(count_non_media_windows(&clients, &[false, false, true], 1, 0), 1);
}

#[test]
fn focused_address_is_history_zero() {
    let clients = vec![
        client("0xb1", "a", [0, 0], [10, 10], false, 3, 0),
        client("0xb2", "b", [0, 0], [10, 10], false, 0, 0),
    ];
    assert_eq!(find_focused_address(&clients), Some("0xb2"));
    assert_eq!(find_focused_address(&clients[..1]), None);
}

#[test]
fn target_position_wide_window_flips_vertically() {
    let config = Config::default();
    // Wide focused window: stay in column, switch row.
    assert_eq!(calculate_target_position(&config, 1272, 712, 1800, normal()), (1272, 48));
    // Narrow focused window: switch column, keep row.
    assert_eq!(calculate_target_position(&config, 1272, 712, 400, normal()), (48, 712));
    assert_eq!(calculate_target_position(&config, 48, 712, 400, normal()), (1272, 712));
}

#[test]
fn position_pair_applies_overrides() {
    let mut config = Config::default();
    let p = get_position_pair(&config, "firefox", "x", normal());
    assert_eq!((p.primary_x, p.primary_y, p.secondary_x, p.secondary_y), (1272, 712, 48, 712));
    assert_eq!((p.width, p.height), (None, None));
    config.positioning.overrides.push(PositionOverride {
        focused_class: "firefox".to_string(),
        pref_x: Some("x_left".to_string()),
        pref_width: Some(800),
        ..Default::default()
    });
    let p = get_position_pair(&config, "Firefox", "x", normal());
    assert_eq!(p.primary_x, 48);
    assert_eq!(p.width, Some(800));
}
