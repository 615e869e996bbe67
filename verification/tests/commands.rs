use media_control_lib::actions::{
    get_minify_state_path, get_suppress_file_path, is_minified, reposition_actions,
    restore_focus_batches, runtime_dir, should_suppress, avoid_entry, AvoidEntry, suppress_stamp_text,
};
use media_control_lib::close::{close_plan, is_shim_cmdline, shim_check_needed, CloseAction};
use media_control_lib::config::Config;
use media_control_lib::error::MediaControlError;
use media_control_lib::focus::{focus_or_launch, launch_plan, FocusPlan};
use media_control_lib::minify::minify;
use media_control_lib::pin::{pin_and_float, PinPlan};
use media_control_lib::position::MinifyState;
use media_control_lib::window::{MediaWindow, Priority};

fn media(class: &str, title: &str, floating: bool, pinned: bool, fullscreen: u8, pid: i32) -> MediaWindow {
    MediaWindow {
        address: "0xd1".to_string(),
        class: class.to_string(),
        title: title.to_string(),
        x: 100,
        y: 100,
        width: 640,
        height: 360,
        floating,
        pinned,
        fullscreen,
        pid,
        always_pin: false,
        priority: Priority::Other,
    }
}

fn normal() -> MinifyState {
    MinifyState { minified: false, scaled_width: 300, scaled_height: 169 }
}

#[test]
fn pin_toggle_on_unpinned_unfloated() {
    let config = Config::default();
    match pin_and_float(&config, Some(&media("mpv", "video.mp4", false, false, 0, 0)), normal()) {
        PinPlan::Enable { batch, reposition } => {
            assert_eq!(
                batch,
                vec![
                    "focuswindow address:0xd1",
                    "togglefloating address:0xd1",
                    "pin address:0xd1"
                ]
            );
            assert_eq!(
                reposition,
                vec![
                    "resizewindowpixel exact 600 338,address:0xd1",
                    "movewindowpixel exact 1272 712,address:0xd1"
                ]
            );
        }
        other => panic!("unexpected {other:?}"),
    }
}

#[test]
fn pin_toggle_off_pinned_floating() {
    let config = Config::default();
    match pin_and_float(&config, Some(&media("mpv", "video.mp4", true, true, 0, 0)), normal()) {
        PinPlan::Disable { batch } => {
            assert_eq!(batch, vec!["pin address:0xd1", "togglefloating address:0xd1"]);
        }
        other => panic!("unexpected {other:?}"),
    }
}

#[test]
fn pin_only_switches_on_what_is_off() {
    let config = Config::default();
    match pin_and_float(&config, Some(&media("mpv", "v", true, false, 0, 0)), normal()) {
        PinPlan::Enable { batch, .. } => {
            assert_eq!(batch, vec!["focuswindow address:0xd1", "pin address:0xd1"])
        }
        other => panic!("unexpected {other:?}"),
    }
}

#[test]
fn pin_fullscreen_is_noop() {
    let config = Config::default();
    assert!(matches!(
        pin_and_float(&config, Some(&media("mpv", "v", false, false, 2, 0)), normal()),
        PinPlan::Skip
    ));
    assert!(matches!(pin_and_float(&config, None, normal()), PinPlan::Skip));
}

#[test]
fn minify_targets_the_opposite_mode() {
    let config = Config::default();
    let w = media("mpv", "v", true, true, 0, 0);
    let plan = minify(&config, Some(&w), false, 300, 169).unwrap();
    assert!(plan.target);
    assert_eq!(
        plan.actions,
        vec![
            "resizewindowpixel exact 300 169,address:0xd1",
            "movewindowpixel exact 1572 881,address:0xd1"
        ]
    );
    let back = minify(&config, Some(&w), true, 300, 169).unwrap();
    assert!(!back.target);
    assert_eq!(
        back.actions,
        vec![
            "resizewindowpixel exact 600 338,address:0xd1",
            "movewindowpixel exact 1272 712,address:0xd1"
        ]
    );
    assert!(minify(&config, Some(&media("mpv", "v", true, true, 1, 0)), false, 300, 169).is_none());
    assert!(minify(&config, None, false, 300, 169).is_none());
}

#[test]
fn close_jellyfin_dispatches_closewindow() {
    let w = media("com.github.iwalton3.jellyfin-media-player", "Jellyfin", true, true, 0, 0);
    match close_plan(Some(&w), None) {
        CloseAction::Close { dispatch } => assert_eq!(dispatch, "closewindow address:0xd1"),
        other => panic!("unexpected {other:?}"),
    }
}

#[test]
fn close_firefox_pip_uses_closewindow() {
    let w = media("firefox", "Picture-in-Picture", true, true, 0, 0);
    match close_plan(Some(&w), None) {
        CloseAction::ClosePip { dispatch } => assert_eq!(dispatch, "closewindow address:0xd1"),
        other => panic!("unexpected {other:?}"),
    }
}

#[test]
fn close_non_shim_mpv_dispatches_closewindow() {
    let w = media("mpv", "video.mp4", true, true, 0, 0);
    assert!(!shim_check_needed(&w));
    assert!(matches!(close_plan(Some(&w), None), CloseAction::Close { .. }));
}

#[test]
fn close_shim_keeps_window() {
    let w = media("mpv", "video.mp4", true, true, 0, 4242);
    assert!(shim_check_needed(&w));
    let cmdline: &[u8] = b"/usr/bin/mpv-shim\0--idle\0";
    match close_plan(Some(&w), Some(cmdline)) {
        CloseAction::StopShim { socket, payload } => {
            assert_eq!(socket, "/tmp/mpv-shim");
            assert_eq!(payload, r#"{"command":["script-message","stop-and-clear"]}"#);
        }
        other => panic!("unexpected {other:?}"),
    }
}

#[test]
fn close_no_media_window_is_noop() {
    assert!(matches!(close_plan(None, None), CloseAction::Nothing));
}

#[test]
fn shim_detection_reads_argv0_file_name() {
    assert!(is_shim_cmdline(b"mpv-shim"));
    assert!(is_shim_cmdline(b"/opt/x/mpv-shim\0a\0"));
    assert!(!is_shim_cmdline(b"/usr/bin/mpv\0/home/u/mpv-shim-tutorial.mkv\0"));
    assert!(!is_shim_cmdline(b"/usr/bin/mpv\0mpv-shim\0"));
    assert!(!is_shim_cmdline(b"/usr/bin/mpv-shim2\0"));
    assert!(!is_shim_cmdline(b"mpv-shim/\0"));
    assert!(!is_shim_cmdline(b""));
    assert!(is_shim_cmdline(b"\xff\xfe/mpv-shim\0"));
}

#[test]
fn focus_existing_media_window() {
    let w = media("mpv", "v", true, true, 0, 0);
    match focus_or_launch(Some(&w), Some("echo hi")).unwrap() {
        FocusPlan::Focus { dispatch } => assert_eq!(dispatch, "focuswindow address:0xd1"),
        other => panic!("unexpected {other:?}"),
    }
}

#[test]
fn launch_splits_words_without_shell() {
    match focus_or_launch(None, Some("flatpak run 'com.x y' ; rm -rf ~")).unwrap() {
        FocusPlan::Launch { program, args } => {
            assert_eq!(program, "flatpak");
            assert_eq!(args, vec!["run", "com.x y", ";", "rm", "-rf", "~"]);
        }
        other => panic!("unexpected {other:?}"),
    }
    assert!(matches!(focus_or_launch(None, None).unwrap(), FocusPlan::Nothing));
}

#[test]
fn launch_errors() {
    match focus_or_launch(None, Some("echo \"unclosed")) {
        Err(MediaControlError::InvalidArgument(m)) => {
            assert_eq!(m, "--launch: failed to tokenize \"echo \\\"unclosed\" (unclosed quotes?)")
        }
        other => panic!("unexpected {other:?}"),
    }
    match focus_or_launch(None, Some("   ")) {
        Err(MediaControlError::InvalidArgument(m)) => assert_eq!(m, "--launch: empty after tokenize"),
        other => panic!("unexpected {other:?}"),
    }
    assert!(matches!(launch_plan("x", None), Err(MediaControlError::InvalidArgument(_))));
}

#[test]
fn focus_restore_batches() {
    let r = restore_focus_batches("0xa1");
    assert_eq!(
        r.modern,
        vec![
            "keyword cursor:no_warps true",
            "dispatch focuswindow address:0xa1",
            "keyword cursor:no_warps false"
        ]
    );
    assert_eq!(r.reset, vec!["keyword cursor:no_warps false"]);
    assert_eq!(
        r.legacy,
        vec![
            "keyword general:no_cursor_warps true",
            "dispatch focuswindow address:0xa1",
            "keyword general:no_cursor_warps false"
        ]
    );
}

#[test]
fn reposition_uses_configured_corner() {
    let config = Config::default();
    assert_eq!(
        reposition_actions(&config, "0xd1", normal()),
        vec![
            "resizewindowpixel exact 600 338,address:0xd1",
            "movewindowpixel exact 1272 712,address:0xd1"
        ]
    );
}

#[test]
fn runtime_paths() {
    assert_eq!(runtime_dir(Some("/run/user/1000"), true).unwrap(), "/run/user/1000");
    assert!(matches!(runtime_dir(None, true), Err(MediaControlError::InvalidArgument(_))));
    assert!(matches!(runtime_dir(Some("/run/../tmp"), true), Err(MediaControlError::InvalidArgument(_))));
    assert!(matches!(runtime_dir(Some("relative"), true), Err(MediaControlError::InvalidArgument(_))));
    assert!(matches!(runtime_dir(Some("/run/user/1000"), false), Err(MediaControlError::InvalidArgument(_))));
    assert_eq!(
        get_suppress_file_path(Some("/run/user/1000"), true).unwrap(),
        "/run/user/1000/media-avoider-suppress"
    );
    assert_eq!(
        get_minify_state_path(Some("/run/user/1000/"), true).unwrap(),
        "/run/user/1000/media-control-minified"
    );
    assert!(is_minified(Some("/run/user/1000"), true, true));
    assert!(!is_minified(Some("/run/user/1000"), true, false));
    assert!(!is_minified(None, false, true));
}

#[test]
fn suppress_stamp_reading() {
    assert!(should_suppress(Some("1000\n"), 1100, 150));
    assert!(!should_suppress(Some("1000"), 1150, 150));
    assert!(!should_suppress(Some("garbage"), 1100, 150));
    assert!(!should_suppress(None, 1100, 150));
    assert!(should_suppress(Some("5000"), 1000, 150), "a stamp in the future counts as fresh");
    assert_eq!(suppress_stamp_text(1234), "1234");
    assert!(!should_suppress(Some(&suppress_stamp_text(0)), 10_000, 150));
}

#[test]
fn avoid_entry_suppressed_only_by_fresh_stamp() {
    assert_eq!(avoid_entry(Some("1000\n"), 1100, 150), AvoidEntry::Suppressed);
    assert_eq!(avoid_entry(Some("1000"), 1150, 150), AvoidEntry::QueryClients);
    assert_eq!(avoid_entry(Some("garbage"), 1100, 150), AvoidEntry::QueryClients);
    assert_eq!(avoid_entry(None, 1100, 150), AvoidEntry::QueryClients);
}
