use media_control_lib::fullscreen::{
    exit_continues_after_retry, find_valid_focus_target, fullscreen_action, fullscreen_exit_step, fullscreen_state_of,
    is_pip_title, restore_after_exit_plan, should_restore_pin, ExitStep, FullscreenAction,
    MAX_FULLSCREEN_EXIT_ATTEMPTS,
};
use media_control_lib::hyprland::{Client, Workspace};
use media_control_lib::window::{MediaWindow, Priority};

#[allow(clippy::too_many_arguments)]
fn client(
    address: &str,
    class: &str,
    hidden: bool,
    ws: i32,
    floating: bool,
    pinned: bool,
    focus_history_id: i32,
) -> Client {
    Client {
        address: address.to_string(),
        mapped: true,
        hidden,
        at: [0, 0],
        size: [100, 100],
        workspace: Workspace { id: ws, name: ws.to_string() },
        floating,
        pinned,
        fullscreen: 0,
        monitor: 0,
        class: class.to_string(),
        title: "t".to_string(),
        focus_history_id,
        pid: 0,
    }
}

#[test]
fn find_valid_focus_target_prefers_previous() {
    let clients = vec![
        client("0x1", "firefox", false, 1, false, false, 1),
        client("0x2", "kitty", false, 1, false, false, 0),
        client("0x3", "mpv", false, 1, true, true, 2),
    ];
    let result = find_valid_focus_target(&clients, "0x3", "0x1");
    assert_eq!(result.as_deref(), Some("0x1"));
    let result = find_valid_focus_target(&clients, "0x3", "0x3");
    assert_eq!(result.as_deref(), Some("0x2"));
}

#[test]
fn find_valid_focus_target_falls_back_when_invalid() {
    let clients = vec![
        client("0x1", "firefox", true, 1, false, false, 1),
        client("0x2", "kitty", false, 1, false, false, 0),
    ];
    let result = find_valid_focus_target(&clients, "0x99", "0x1");
    assert_eq!(result.as_deref(), Some("0x2"));
}

#[test]
fn find_valid_focus_target_returns_none_when_no_candidates() {
    let clients = vec![client("0x1", "mpv", false, 1, true, true, 0)];
    let result = find_valid_focus_target(&clients, "0x1", "0x999");
    assert!(result.is_none());
}

#[test]
fn find_valid_focus_target_does_not_cross_workspaces() {
    let clients = vec![
        client("0xd1", "mpv", false, 1, true, true, 1),
        client("0xb2", "firefox", false, 2, false, false, 0),
    ];
    let result = find_valid_focus_target(&clients, "0xd1", "0xe2");
    assert!(result.is_none(), "must not cross workspaces in fallback; got {result:?}");
}

#[test]
fn find_valid_focus_target_skips_never_focused() {
    let clients = vec![
        client("0xd1", "mpv", false, 1, true, true, 1),
        client("0xe1", "term", false, 1, false, false, -1),
    ];
    let result = find_valid_focus_target(&clients, "0xd1", "0xd1");
    assert!(result.is_none(), "never-focused windows must be excluded; got {result:?}");
}

#[test]
fn pip_title_detection() {
    assert!(is_pip_title("Picture-in-Picture"));
    assert!(is_pip_title("picture-in-picture"));
    assert!(is_pip_title("Picture in Picture"));
    assert!(is_pip_title("PICTURE-IN-PICTURE"));
    assert!(!is_pip_title("Not a PiP window"));
    assert!(!is_pip_title("Picture"));
    assert!(!is_pip_title(""));
}

fn media(fullscreen: u8, floating: bool, pinned: bool, always_pin: bool) -> MediaWindow {
    MediaWindow {
        address: "0xd1".to_string(),
        class: "mpv".to_string(),
        title: "video.mp4".to_string(),
        x: 0,
        y: 0,
        width: 600,
        height: 338,
        floating,
        pinned,
        fullscreen,
        pid: 0,
        always_pin,
        priority: Priority::Other,
    }
}

#[test]
fn fullscreen_toggle_actions() {
    match fullscreen_action(&media(0, true, false, true)) {
        FullscreenAction::AutoPin(a) => assert_eq!(a, "pin address:0xd1"),
        other => panic!("unexpected {other:?}"),
    }
    match fullscreen_action(&media(0, false, false, true)) {
        FullscreenAction::AutoPinBatch(v) => {
            assert_eq!(v, vec!["togglefloating address:0xd1", "pin address:0xd1"])
        }
        other => panic!("unexpected {other:?}"),
    }
    match fullscreen_action(&media(0, true, true, false)) {
        FullscreenAction::Enter(v) => assert_eq!(
            v,
            vec!["focuswindow address:0xd1", "pin address:0xd1", "fullscreen 0"]
        ),
        other => panic!("unexpected {other:?}"),
    }
    match fullscreen_action(&media(2, true, false, true)) {
        FullscreenAction::Exit(v) => {
            assert_eq!(v, vec!["focuswindow address:0xd1", "fullscreen 0"])
        }
        other => panic!("unexpected {other:?}"),
    }
}

#[test]
fn exit_loop_retries_then_forces() {
    assert!(matches!(fullscreen_exit_step("0xd1", 0, Some(0)), ExitStep::Stop));
    assert!(matches!(fullscreen_exit_step("0xd1", 0, None), ExitStep::Stop));
    match fullscreen_exit_step("0xd1", 0, Some(2)) {
        ExitStep::Retry { attempt, actions, is_final } => {
            assert_eq!(attempt, 1);
            assert!(!is_final);
            assert_eq!(actions, vec!["focuswindow address:0xd1", "fullscreen 0"]);
        }
        other => panic!("unexpected {other:?}"),
    }
    match fullscreen_exit_step("0xd1", MAX_FULLSCREEN_EXIT_ATTEMPTS - 1, Some(1)) {
        ExitStep::Retry { attempt, actions, is_final } => {
            assert_eq!(attempt, MAX_FULLSCREEN_EXIT_ATTEMPTS);
            assert!(is_final);
            let toggles = actions.iter().filter(|a| *a == "fullscreen 0").count();
            assert_eq!(toggles, 3);
        }
        other => panic!("unexpected {other:?}"),
    }
}

#[test]
fn pin_restore_rule() {
    assert!(should_restore_pin(&media(2, true, true, false)));
    assert!(should_restore_pin(&media(2, true, false, true)));
    assert!(!should_restore_pin(&media(2, true, false, false)));
    let mut pip = media(2, true, false, false);
    pip.title = "Picture-in-Picture".to_string();
    assert!(should_restore_pin(&pip));
}

#[test]
fn fresh_state_lookup() {
    let mut c = client("0xd1", "mpv", false, 1, true, true, 0);
    c.fullscreen = 2;
    let clients = vec![client("0x1", "kitty", false, 1, false, false, 1), c];
    assert_eq!(fullscreen_state_of(&clients, "0xd1"), 2);
    assert_eq!(fullscreen_state_of(&clients, "0xgone"), 0);
}

#[test]
fn restore_skips_recycled_address() {
    let w = media(2, true, true, false);
    let fresh = vec![client("0xd1", "firefox", false, 1, false, false, 0)];
    let plan = restore_after_exit_plan(&w, true, Some("0x1"), &fresh);
    assert!(!plan.proceed);
    assert!(!plan.restore_pin && !plan.reposition && plan.focus_target.is_none());
    assert!(!plan.avoid_after);
}

#[test]
fn restore_repins_repositions_and_refocuses() {
    let w = media(2, true, true, false);
    let fresh = vec![
        client("0xd1", "mpv", false, 1, true, false, 0),
        client("0x1", "kitty", false, 1, false, false, 1),
    ];
    let plan = restore_after_exit_plan(&w, true, Some("0x1"), &fresh);
    assert!(plan.proceed && plan.restore_pin && plan.reposition);
    assert_eq!(plan.focus_target.as_deref(), Some("0x1"));
    assert!(plan.avoid_after);
}

#[test]
fn exit_loop_stops_after_failed_retry() {
    assert!(exit_continues_after_retry(true));
    assert!(!exit_continues_after_retry(false));
}
