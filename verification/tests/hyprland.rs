use media_control_lib::hyprland::{
    choose_from_scan, classify_probe_reply, is_safe_component, is_safe_his, is_valid_address,
    runtime_socket_path, sanitize_address, usable_env_hint, Candidate, HyprlandClient,
    HyprlandError, Liveness, Workspace,
};

#[test]
fn test_workspace_equality() {
    let ws1 = Workspace { id: 1, name: "main".to_string() };
    let ws2 = Workspace { id: 1, name: "main".to_string() };
    let ws3 = Workspace { id: 2, name: "other".to_string() };
    assert_eq!(ws1, ws2);
    assert_ne!(ws1, ws3);
}

#[test]
fn test_batch_command_formatting() {
    let commands = [
        "dispatch movewindowpixel exact 100 200,address:0x1",
        "dispatch resizewindowpixel exact 640 360,address:0x1",
    ];
    let batch_cmd = HyprlandClient::batch_command(&commands).unwrap();
    assert_eq!(
        batch_cmd,
        "[[BATCH]]dispatch movewindowpixel exact 100 200,address:0x1; dispatch resizewindowpixel exact 640 360,address:0x1"
    );
}

#[test]
fn test_dispatch_command_formatting() {
    let action = "focuswindow address:0x12345678";
    let cmd = HyprlandClient::dispatch_command(action);
    assert_eq!(cmd, "dispatch focuswindow address:0x12345678");
}

#[test]
fn dispatch_batch_prefixes_each_action() {
    let cmd = HyprlandClient::dispatch_batch_command(&["a 1", "b 2"]).unwrap();
    assert_eq!(cmd, "[[BATCH]]dispatch a 1; dispatch b 2");
    assert!(HyprlandClient::dispatch_batch_command(&[]).is_none());
    assert!(HyprlandClient::batch_command(&[]).is_none());
}

#[test]
fn keyword_command_text() {
    assert_eq!(
        HyprlandClient::keyword_command("cursor:no_warps", "true"),
        "keyword cursor:no_warps true"
    );
}

#[test]
fn is_valid_address_accepts_canonical_forms() {
    assert!(is_valid_address("0x1"));
    assert!(is_valid_address("0xABCDEF"));
    assert!(is_valid_address("0xabcdef0123456789"));
    assert!(is_valid_address(&format!("0x{}", "f".repeat(32))));
}

#[test]
fn is_valid_address_rejects_non_hex_and_injection() {
    assert!(!is_valid_address(""));
    assert!(!is_valid_address("abc"));
    assert!(!is_valid_address("0x"));
    assert!(!is_valid_address("0xpip123"));
    assert!(!is_valid_address("0xjelly"));
    assert!(!is_valid_address(&format!("0x{}", "f".repeat(33))));
    assert!(!is_valid_address("0xABC;dispatch exec rm ~"));
    assert!(!is_valid_address("0xABC dispatch exec foo"));
    assert!(!is_valid_address("0xABC\ndispatch exec foo"));
}

#[test]
fn deserialize_address_accepts_valid_hex() {
    assert_eq!(sanitize_address("0x55a1b2c3d4e5".to_string()), "0x55a1b2c3d4e5");
}

#[test]
fn deserialize_address_replaces_injection_payload_with_empty() {
    assert_eq!(sanitize_address("0xABC;dispatch exec rm ~".to_string()), "");
}

#[test]
fn is_success_accepts_empty_response() {
    assert!(HyprlandClient::is_success(""));
}

#[test]
fn is_success_accepts_bare_ok() {
    assert!(HyprlandClient::is_success("ok"));
    assert!(HyprlandClient::is_success("ok\n"));
}

#[test]
fn is_success_accepts_multi_ok_batch_response() {
    assert!(HyprlandClient::is_success("ok\nok\nok\n"));
    assert!(HyprlandClient::is_success("ok\nok"));
}

#[test]
fn is_success_rejects_error_text() {
    assert!(!HyprlandClient::is_success("error: unknown command"));
}

#[test]
fn is_success_rejects_substring_false_positives() {
    assert!(!HyprlandClient::is_success("oklahoma"));
    assert!(!HyprlandClient::is_success("okok"));
    assert!(!HyprlandClient::is_success("ok ok"));
}

#[test]
fn is_success_rejects_partial_failure_in_batch() {
    assert!(!HyprlandClient::is_success("ok\nerror: bad\nok\n"));
}

#[test]
fn is_safe_component_accepts_normal_names() {
    assert!(is_safe_component("hyprland"));
    assert!(is_safe_component(".socket.sock"));
    assert!(is_safe_component("v0.41.2_1234567890"));
}

#[test]
fn is_safe_component_allows_embedded_double_dot() {
    assert!(is_safe_component("abc..def"));
    assert!(is_safe_component("a..b"));
    assert!(is_safe_component("..foo"));
    assert!(is_safe_component("foo.."));
}

#[test]
fn is_safe_component_rejects_bare_traversal_tokens() {
    assert!(!is_safe_component(".."));
    assert!(!is_safe_component("."));
}

#[test]
fn is_safe_component_rejects_separators_and_nul_and_empty() {
    assert!(!is_safe_component(""));
    assert!(!is_safe_component("foo/bar"));
    assert!(!is_safe_component("foo\\bar"));
    assert!(!is_safe_component("foo\0bar"));
    assert!(!is_safe_component("foo/../bar"));
}

#[test]
fn instance_signature_may_not_be_hidden() {
    assert!(is_safe_his("v0.41_abc"));
    assert!(!is_safe_his(".hidden"));
    assert!(!is_safe_his(""));
}

#[test]
fn command_outcome_rejection_names_command_and_reply() {
    let r = HyprlandClient::command_outcome("dispatch x", "error: bad");
    match r {
        Err(HyprlandError::CommandFailed(m)) => {
            assert_eq!(m, "cmd=\"dispatch x\" response=\"error: bad\"");
        }
        other => panic!("expected CommandFailed, got {other:?}"),
    }
    assert!(HyprlandClient::command_outcome("dispatch x", "ok\n").is_ok());
}

#[test]
fn probe_reply_classification() {
    assert_eq!(classify_probe_reply(""), Liveness::LiveEmpty);
    assert_eq!(classify_probe_reply("Invalid\n"), Liveness::LiveEmpty);
    assert_eq!(classify_probe_reply("{\"address\":\"0x1\"}"), Liveness::LiveWithClients);
}

fn cand(name: &str, mtime: i128, liveness: Liveness) -> Candidate {
    Candidate { name: name.to_string(), mtime, liveness }
}

#[test]
fn scan_prefers_live_with_clients_over_empty_over_dead() {
    let c = vec![
        cand("dead", 30, Liveness::Dead),
        cand("empty", 20, Liveness::LiveEmpty),
        cand("busy", 10, Liveness::LiveWithClients),
    ];
    assert_eq!(choose_from_scan(None, Some(&c)).unwrap(), "busy");
}

#[test]
fn scan_returns_live_empty_when_only_choice() {
    let c = vec![cand("dead", 30, Liveness::Dead), cand("empty", 20, Liveness::LiveEmpty)];
    assert_eq!(choose_from_scan(None, Some(&c)).unwrap(), "empty");
}

#[test]
fn scan_picks_newest_among_equals_and_first_on_ties() {
    let c = vec![
        cand("a", 5, Liveness::LiveWithClients),
        cand("b", 9, Liveness::LiveWithClients),
        cand("c", 9, Liveness::LiveWithClients),
    ];
    assert_eq!(choose_from_scan(None, Some(&c)).unwrap(), "b");
}

#[test]
fn scan_all_dead_falls_back_to_hint_then_newest() {
    let c = vec![cand("old", 1, Liveness::Dead), cand("new", 2, Liveness::Dead)];
    assert_eq!(choose_from_scan(Some("hint".to_string()), Some(&c)).unwrap(), "hint");
    assert_eq!(choose_from_scan(None, Some(&c)).unwrap(), "new");
}

#[test]
fn scan_with_nothing_is_no_live_instance() {
    assert!(matches!(choose_from_scan(None, None), Err(HyprlandError::NoLiveInstance)));
    assert!(matches!(choose_from_scan(None, Some(&[])), Err(HyprlandError::NoLiveInstance)));
    assert_eq!(choose_from_scan(Some("h".to_string()), None).unwrap(), "h");
}

#[test]
fn env_hint_must_be_safe() {
    assert_eq!(usable_env_hint(Some("abc")), Some("abc".to_string()));
    assert_eq!(usable_env_hint(Some("../x")), None);
    assert_eq!(usable_env_hint(Some("")), None);
    assert_eq!(usable_env_hint(None), None);
}

#[test]
fn socket_path_joins_runtime_dir_and_instance() {
    assert_eq!(
        runtime_socket_path(".socket.sock", Some("/run/user/1000"), "abc").unwrap(),
        "/run/user/1000/hypr/abc/.socket.sock"
    );
    assert!(matches!(
        runtime_socket_path(".socket.sock", None, "abc"),
        Err(HyprlandError::MissingEnvVar(_))
    ));
    assert!(matches!(
        runtime_socket_path(".socket.sock", Some("relative"), "abc"),
        Err(HyprlandError::InvalidEnvVar(_))
    ));
    assert!(matches!(
        runtime_socket_path("../x", Some("/run/user/1000"), "abc"),
        Err(HyprlandError::InvalidEnvVar(_))
    ));
}

#[test]
fn timeout_before_connect_is_retried_after_is_not() {
    let before = HyprlandClient::timeout_error(false, std::io::Error::new(std::io::ErrorKind::TimedOut, "t"));
    assert!(matches!(before, HyprlandError::ConnectionFailed(_)));
    assert!(HyprlandClient::should_retry(&before));
    let after = HyprlandClient::timeout_error(true, std::io::Error::new(std::io::ErrorKind::TimedOut, "t"));
    assert!(matches!(after, HyprlandError::ReadFailed(_)));
    assert!(!HyprlandClient::should_retry(&after));
}
