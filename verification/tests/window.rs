use media_control_lib::config::Pattern;
use media_control_lib::hyprland::{Client, Workspace};
use media_control_lib::window::{
    find_media_window, find_media_windows, find_previous_focus, is_media, media_flags, media_pattern,
    windowed_only, Priority,
};

fn pattern(key: &str, value: &str, pinned_only: bool, always_pin: bool) -> Pattern {
    Pattern { key: key.to_string(), value: value.to_string(), pinned_only, always_pin }
}

fn client(addr: &str, class: &str, title: &str, pinned: bool, focus: i32) -> Client {
    Client {
        address: addr.to_string(),
        mapped: true,
        hidden: false,
        at: [100, 100],
        size: [640, 360],
        workspace: Workspace { id: 1, name: "1".to_string() },
        floating: true,
        pinned,
        fullscreen: 0,
        monitor: 0,
        pid: 0,
        class: class.to_string(),
        title: title.to_string(),
        focus_history_id: focus,
    }
}

#[test]
fn get_media_window_with_clients_uses_focus_from_clients() {
    let patterns = vec![Pattern {
        key: "class".to_string(),
        value: "mpv".to_string(),
        pinned_only: false,
        always_pin: false,
    }];
    let clients = vec![
        Client {
            address: "0x1".to_string(),
            mapped: true,
            hidden: false,
            at: [0, 0],
            size: [1920, 1080],
            workspace: Workspace { id: 1, name: "1".to_string() },
            floating: false,
            pinned: false,
            fullscreen: 0,
            monitor: 0,
            class: "firefox".to_string(),
            title: "Browser".to_string(),
            focus_history_id: 0,
            pid: 0,
        },
        Client {
            address: "0x2".to_string(),
            mapped: true,
            hidden: false,
            at: [100, 100],
            size: [640, 360],
            workspace: Workspace { id: 1, name: "1".to_string() },
            floating: true,
            pinned: true,
            fullscreen: 0,
            monitor: 0,
            class: "mpv".to_string(),
            title: "video.mp4".to_string(),
            focus_history_id: 1,
            pid: 0,
        },
    ];
    let focus_addr = clients.iter().filter(|c| c.is_focused()).map(|c| c.address.as_str()).next();
    assert_eq!(focus_addr, Some("0x1"));
    let result = find_media_window(&patterns, &clients, focus_addr);
    assert!(result.is_some());
    let media = result.unwrap();
    assert_eq!(media.address, "0x2");
    assert_eq!(media.class, "mpv");
    assert_eq!(media.priority, Priority::Pinned);
}

#[test]
fn pattern_on_title_and_class() {
    let patterns = vec![pattern("class", "^mpv$", false, false), pattern("title", "Picture-in-Picture", false, true)];
    let a = client("0xa", "mpv", "x", false, 1);
    let b = client("0xb", "firefox", "Picture-in-Picture", false, 2);
    let c = client("0xc", "firefox", "news", false, 3);
    assert_eq!(media_pattern(&patterns, &a), Some(0));
    assert_eq!(media_pattern(&patterns, &b), Some(1));
    assert_eq!(media_pattern(&patterns, &c), None);
    assert!(is_media(&patterns, &a));
    assert!(!is_media(&patterns, &c));
}

#[test]
fn pinned_only_pattern_needs_pinned_or_fullscreen() {
    let patterns = vec![pattern("class", "firefox", true, false)];
    let mut c = client("0xa", "firefox", "x", false, 1);
    assert!(!is_media(&patterns, &c));
    c.fullscreen = 2;
    assert!(is_media(&patterns, &c));
    c.fullscreen = 0;
    c.pinned = true;
    assert!(is_media(&patterns, &c));
}

#[test]
fn invalid_regex_matches_nothing() {
    let patterns = vec![pattern("class", "(", false, false), pattern("class", "mpv", false, false)];
    let c = client("0xa", "mpv", "x", false, 1);
    assert_eq!(media_pattern(&patterns, &c), Some(1));
}

#[test]
fn focused_media_window_beats_earlier_unpinned_one() {
    let patterns = vec![pattern("class", "mpv", false, true)];
    let clients = vec![client("0xa", "mpv", "a", false, 2), client("0xb", "mpv", "b", false, 0)];
    let w = find_media_window(&patterns, &clients, Some("0xb")).unwrap();
    assert_eq!(w.address, "0xb");
    assert_eq!(w.priority, Priority::Focused);
    assert!(w.always_pin);
    let w = find_media_window(&patterns, &clients, None).unwrap();
    assert_eq!(w.address, "0xa");
    assert_eq!(w.priority, Priority::Other);
    assert_eq!((w.x, w.y, w.width, w.height), (100, 100, 640, 360));
}

#[test]
fn no_media_window_found() {
    let patterns = vec![pattern("class", "mpv", false, false)];
    let clients = vec![client("0xa", "firefox", "a", false, 0)];
    assert!(find_media_window(&patterns, &clients, Some("0xa")).is_none());
}

#[test]
fn media_windows_on_monitor_are_visible_ones_in_order() {
    let patterns = vec![pattern("class", "mpv", false, false)];
    let mut hidden = client("0xh", "mpv", "h", false, 4);
    hidden.hidden = true;
    let mut other_monitor = client("0xm", "mpv", "m", false, 5);
    other_monitor.monitor = 1;
    let clients = vec![
        client("0xa", "mpv", "a", true, 2),
        client("0xf", "firefox", "f", false, 0),
        hidden,
        other_monitor,
        client("0xb", "mpv", "b", false, 3),
    ];
    let ws = find_media_windows(&patterns, &clients, 0);
    let addrs: Vec<&str> = ws.iter().map(|w| w.address.as_str()).collect();
    assert_eq!(addrs, vec!["0xa", "0xb"]);
    assert_eq!(ws[0].priority, Priority::Pinned);
    assert_eq!(ws[1].priority, Priority::Other);
}

#[test]
fn previous_focus_is_most_recent_visible_non_media() {
    let patterns = vec![pattern("class", "mpv", false, false)];
    let mut never = client("0xn", "kitty", "n", false, -1);
    never.focus_history_id = -1;
    let mut elsewhere = client("0xe", "kitty", "e", false, 1);
    elsewhere.workspace = Workspace { id: 2, name: "2".to_string() };
    let clients = vec![
        client("0xm", "mpv", "m", false, 0),
        client("0xa", "kitty", "a", false, 3),
        elsewhere,
        client("0xb", "foot", "b", false, 2),
        never,
    ];
    assert_eq!(find_previous_focus(&patterns, &clients, "0xm", Some(1)), Some("0xb".to_string()));
    assert_eq!(find_previous_focus(&patterns, &clients, "0xm", None), Some("0xe".to_string()));
    assert_eq!(find_previous_focus(&patterns, &clients, "0xb", Some(1)), Some("0xa".to_string()));
    assert_eq!(find_previous_focus(&patterns, &clients[..1], "0xa", None), None);
}

#[test]
fn media_flags_and_windowed_filter() {
    let patterns = vec![pattern("class", "mpv", false, false)];
    let mut full = client("0xb", "mpv", "b", false, 3);
    full.fullscreen = 2;
    let clients = vec![client("0xa", "mpv", "a", false, 2), client("0xf", "foot", "f", false, 0), full];
    assert_eq!(media_flags(&patterns, &clients), vec![true, false, true]);
    let all = find_media_windows(&patterns, &clients, 0);
    assert_eq!(all.len(), 2);
    let windowed = windowed_only(&all);
    assert_eq!(windowed.len(), 1);
    assert_eq!(windowed[0].address, "0xa");
}
