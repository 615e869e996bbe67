use media_control_lib::error::{MediaControlError, MpvIpcErrorKind};
use media_control_lib::mpv::{
    first_attempt, get_property_payload, mpv_socket_paths, next_attempt, property_reply_outcome,
    line_verdict, reply_line_is_event, reply_line_verdict, script_message_payload, LineVerdict, sleeps_before, validate_ipc_token_len,
    validate_mpv_socket_path, Attempt,
};

#[test]
fn script_message_payload_text() {
    assert_eq!(
        script_message_payload("test-cmd", &[]),
        r#"{"command":["script-message","test-cmd"]}"#
    );
    assert_eq!(
        script_message_payload("random", &["movie", "x y"]),
        r#"{"command":["script-message","random","movie","x y"]}"#
    );
}

#[test]
fn get_property_payload_text() {
    assert_eq!(get_property_payload("media-title"), r#"{"command":["get_property","media-title"]}"#);
}

#[test]
fn socket_path_validation() {
    match validate_mpv_socket_path("") {
        Err(MediaControlError::InvalidArgument(m)) => assert_eq!(m, "MPV_IPC_SOCKET must not be empty"),
        other => panic!("unexpected {other:?}"),
    }
    match validate_mpv_socket_path("rel/sock") {
        Err(MediaControlError::InvalidArgument(m)) => {
            assert_eq!(m, "MPV_IPC_SOCKET must be an absolute path (got \"rel/sock\")")
        }
        other => panic!("unexpected {other:?}"),
    }
    match validate_mpv_socket_path("/tmp/../etc/x") {
        Err(MediaControlError::InvalidArgument(m)) => assert_eq!(
            m,
            "MPV_IPC_SOCKET must not contain `..` components (got \"/tmp/../etc/x\")"
        ),
        other => panic!("unexpected {other:?}"),
    }
    assert_eq!(validate_mpv_socket_path("/run/mpv.sock").unwrap(), "/run/mpv.sock");
    assert_eq!(validate_mpv_socket_path("/tmp/a..b").unwrap(), "/tmp/a..b");
}

#[test]
fn socket_candidates_order() {
    assert_eq!(mpv_socket_paths(None), vec!["/tmp/mpv-shim", "/tmp/mpvctl-jshim"]);
    assert_eq!(
        mpv_socket_paths(Some("/run/x.sock")),
        vec!["/run/x.sock", "/tmp/mpv-shim", "/tmp/mpvctl-jshim"]
    );
    assert_eq!(mpv_socket_paths(Some("relative")), vec!["/tmp/mpv-shim", "/tmp/mpvctl-jshim"]);
}

#[test]
fn token_length_checks() {
    assert!(validate_ipc_token_len("x", "abc", 3).is_ok());
    match validate_ipc_token_len("x", "abcd", 3) {
        Err(MediaControlError::InvalidArgument(m)) => assert_eq!(m, "x too long: 4 bytes (max 3)"),
        other => panic!("unexpected {other:?}"),
    }
}

#[test]
fn property_reply_reading() {
    assert!(property_reply_outcome("pause", Some("success")).is_ok());
    match property_reply_outcome("pause", Some("property unavailable")) {
        Err(MediaControlError::MpvIpc { kind, message }) => {
            assert_eq!(kind, MpvIpcErrorKind::ConnectionFailed);
            assert_eq!(message, "mpv error for \"pause\": property unavailable");
        }
        other => panic!("unexpected {other:?}"),
    }
    match property_reply_outcome("pause", None) {
        Err(MediaControlError::MpvIpc { message, .. }) => {
            assert_eq!(message, "mpv error for \"pause\": unknown")
        }
        other => panic!("unexpected {other:?}"),
    }
}

#[test]
fn event_lines_are_skipped() {
    assert!(reply_line_is_event(true, false));
    assert!(!reply_line_is_event(true, true));
    assert!(!reply_line_is_event(false, false));
}

#[test]
fn attempts_exhaust_retries_per_socket_first() {
    let mut order = Vec::new();
    let mut cur = first_attempt(3);
    while let Some(a) = cur {
        order.push((a.path, a.attempt, sleeps_before(a)));
        cur = next_attempt(3, 1, a);
    }
    assert_eq!(
        order,
        vec![
            (0, 0, false),
            (0, 1, true),
            (1, 0, false),
            (1, 1, true),
            (2, 0, false),
            (2, 1, true)
        ]
    );
    assert!(first_attempt(0).is_none());
    assert_eq!(next_attempt(1, 0, Attempt { path: 0, attempt: 0 }), None);
}

#[test]
fn reply_lines_skip_events_and_non_json() {
    assert_eq!(reply_line_verdict("{\"event\":\"file-loaded\"}\n"), LineVerdict::Event);
    assert_eq!(reply_line_verdict("{\"event\":\"x\",\"error\":\"success\"}"), LineVerdict::Reply);
    assert_eq!(reply_line_verdict("{\"data\":1.5,\"error\":\"success\",\"request_id\":0}\n"), LineVerdict::Reply);
    assert_eq!(reply_line_verdict("not json\n"), LineVerdict::NotJson);
    assert_eq!(reply_line_verdict("[1,2]"), LineVerdict::Reply);
    assert_eq!(line_verdict(None), LineVerdict::NotJson);
    assert_eq!(line_verdict(Some((true, false))), LineVerdict::Event);
    assert_eq!(line_verdict(Some((false, false))), LineVerdict::Reply);
}

#[test]
fn script_message_payload_escapes_strings() {
    assert_eq!(
        script_message_payload("say", &["a\"b\\c", "tab\there\u{1}"]),
        "{\"command\":[\"script-message\",\"say\",\"a\\\"b\\\\c\",\"tab\\there\\u0001\"]}"
    );
}
