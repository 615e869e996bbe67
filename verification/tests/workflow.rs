use media_control_lib::error::MediaControlError;
use media_control_lib::workflow::{
    chapter_payload, play_payload, random_payload, seek_payload, ChapterDirection, PlayTarget,
    ITEM_ID_MAX_LEN, RANDOM_TYPE_MAX_LEN,
};

#[test]
fn chapter_direction_offset() {
    assert_eq!(ChapterDirection::Next.offset(), 1);
    assert_eq!(ChapterDirection::Prev.offset(), -1);
}

#[test]
fn parse_accepts_documented_inputs() {
    assert_eq!(ChapterDirection::parse("next"), Some(ChapterDirection::Next));
    assert_eq!(ChapterDirection::parse("Next"), Some(ChapterDirection::Next));
    assert_eq!(ChapterDirection::parse("prev"), Some(ChapterDirection::Prev));
    assert_eq!(ChapterDirection::parse("Prev"), Some(ChapterDirection::Prev));
    assert_eq!(ChapterDirection::parse("previous"), Some(ChapterDirection::Prev));
    assert_eq!(ChapterDirection::parse("Previous"), Some(ChapterDirection::Prev));
}

#[test]
fn parse_rejects_unknown_inputs() {
    assert_eq!(ChapterDirection::parse(""), None);
    assert_eq!(ChapterDirection::parse("NEXT"), None);
    assert_eq!(ChapterDirection::parse("forward"), None);
    assert_eq!(ChapterDirection::parse("n"), None);
}

#[test]
fn mpv_command_format() {
    let next: serde_json::Value =
        serde_json::from_str(&chapter_payload(ChapterDirection::Next)).unwrap();
    let cmd = next["command"].as_array().unwrap();
    assert_eq!(cmd[0], "add");
    assert_eq!(cmd[1], "chapter");
    assert_eq!(cmd[2], 1);

    let prev: serde_json::Value =
        serde_json::from_str(&chapter_payload(ChapterDirection::Prev)).unwrap();
    assert_eq!(prev["command"][2], -1);
}

#[test]
fn chapter_payload_exact_text() {
    assert_eq!(chapter_payload(ChapterDirection::Next), r#"{"command":["add","chapter",1]}"#);
    assert_eq!(chapter_payload(ChapterDirection::Prev), r#"{"command":["add","chapter",-1]}"#);
}

#[test]
fn seek_payload_format() {
    let parsed: serde_json::Value = serde_json::from_str(&seek_payload(50)).unwrap();
    let cmd = parsed["command"].as_array().unwrap();
    assert_eq!(cmd[0], "seek");
    assert_eq!(cmd[1], 50);
    assert_eq!(cmd[2], "absolute-percent");
}

#[test]
fn seek_zero() {
    let parsed: serde_json::Value = serde_json::from_str(&seek_payload(0)).unwrap();
    assert_eq!(parsed["command"][1], 0);
}

#[test]
fn seek_boundary_100() {
    let parsed: serde_json::Value = serde_json::from_str(&seek_payload(100)).unwrap();
    assert_eq!(parsed["command"][1], 100);
}

#[test]
fn parse_next_up() {
    assert_eq!(PlayTarget::parse("next-up"), PlayTarget::NextUp);
}

#[test]
fn parse_store_name() {
    assert_eq!(PlayTarget::parse("twitch"), PlayTarget::Store("twitch".to_string()));
    assert_eq!(PlayTarget::parse("jellyfin"), PlayTarget::Store("jellyfin".to_string()));
    assert_eq!(PlayTarget::parse("pinchflat"), PlayTarget::Store("pinchflat".to_string()));
}

#[test]
fn parse_item_id() {
    assert_eq!(
        PlayTarget::parse("a5c0a87b1d058d1b7e70f5406ee274e2"),
        PlayTarget::ItemId("a5c0a87b1d058d1b7e70f5406ee274e2".to_string())
    );
}

#[test]
fn parse_short_hex_is_store() {
    assert_eq!(
        PlayTarget::parse("a5c0a87b1d058d1b7e70f5406ee274e"),
        PlayTarget::Store("a5c0a87b1d058d1b7e70f5406ee274e".to_string())
    );
}

#[test]
fn parse_hex_with_non_hex_char_is_store() {
    assert_eq!(
        PlayTarget::parse("a5c0a87b1d058d1b7e70f5406ee274g2"),
        PlayTarget::Store("a5c0a87b1d058d1b7e70f5406ee274g2".to_string())
    );
}

#[test]
fn parse_empty_string_is_store() {
    assert_eq!(PlayTarget::parse(""), PlayTarget::Store(String::new()));
}

#[test]
fn parse_overlong_hex_is_store() {
    let huge = "a".repeat(ITEM_ID_MAX_LEN + 1);
    assert_eq!(PlayTarget::parse(&huge), PlayTarget::Store(huge));
}

#[test]
fn parse_max_len_hex_is_item_id() {
    let max = "b".repeat(ITEM_ID_MAX_LEN);
    assert_eq!(PlayTarget::parse(&max), PlayTarget::ItemId(max));
}

#[test]
fn play_payloads() {
    assert_eq!(
        play_payload(&PlayTarget::NextUp),
        r#"{"command":["script-message","play-next-up"]}"#
    );
    assert_eq!(
        play_payload(&PlayTarget::Store("twitch".to_string())),
        r#"{"command":["script-message","play-twitch"]}"#
    );
    assert_eq!(
        play_payload(&PlayTarget::ItemId("ab".to_string())),
        r#"{"command":["script-message","play-item","ab"]}"#
    );
}

#[test]
fn random_rejects_overlong_type() {
    let huge = "x".repeat(RANDOM_TYPE_MAX_LEN + 1);
    match random_payload(Some(&huge)) {
        Err(MediaControlError::InvalidArgument(msg)) => {
            assert!(msg.contains("too long"), "message should mention overflow: {msg}");
            assert_eq!(msg, "random type too long: 65 bytes (max 64)");
        }
        other => panic!("expected InvalidArgument, got {other:?}"),
    }
}

#[test]
fn random_accepts_max_len_type() {
    let max = "x".repeat(RANDOM_TYPE_MAX_LEN);
    let p = random_payload(Some(&max)).expect("length-check should not fire at the boundary");
    assert_eq!(p, format!(r#"{{"command":["script-message","random","{max}"]}}"#));
}

#[test]
fn random_rejects_empty_type() {
    match random_payload(Some("")) {
        Err(MediaControlError::InvalidArgument(msg)) => {
            assert_eq!(msg, "random type must not be empty");
        }
        other => panic!("expected InvalidArgument, got {other:?}"),
    }
}

#[test]
fn random_counts_bytes_not_characters() {
    // 22 three-byte characters: 66 bytes, over the cap though only 22 chars.
    let wide = "\u{2733}".repeat(22);
    assert!(matches!(random_payload(Some(&wide)), Err(MediaControlError::InvalidArgument(_))));
}

#[test]
fn random_without_type() {
    assert_eq!(random_payload(None).unwrap(), r#"{"command":["script-message","random"]}"#);
}

#[test]
fn payload_strings_are_json_escaped() {
    let p = play_payload(&PlayTarget::Store("a\"b".to_string()));
    let v: serde_json::Value = serde_json::from_str(&p).unwrap();
    assert_eq!(v["command"][1], "play-a\"b");
}
