use media_control_lib::config::{check_size, Config, ConfigError, Pattern, PositionOverride, Positions};
use media_control_lib::position::{
    effective_dimensions, minified_shift_fits, resolve_effective_position, MinifyState,
};

fn sample_config() -> Config {
    let mut c = Config::default();
    c.positions = Positions { x_left: 100, x_right: 1200, y_top: 50, y_bottom: 700, width: 640, height: 360 };
    c.positioning.wide_window_threshold = 85;
    c.positioning.position_tolerance = 10;
    c.positioning.default_x = "x_left".to_string();
    c.positioning.default_y = "y_top".to_string();
    c.positioning.overrides.push(PositionOverride {
        focused_class: "firefox".to_string(),
        pref_x: Some("x_right".to_string()),
        pref_y: Some("y_bottom".to_string()),
        ..Default::default()
    });
    c.positioning.overrides.push(PositionOverride {
        focused_class: "code".to_string(),
        pref_width: Some(800),
        pref_height: Some(450),
        ..Default::default()
    });
    c
}

fn with_override(class: &str, title: &str) -> Config {
    let mut c = Config::default();
    c.positioning.overrides.push(PositionOverride {
        focused_class: class.to_string(),
        focused_title: title.to_string(),
        pref_x: Some("x_left".to_string()),
        ..Default::default()
    });
    c
}

#[test]
fn config_default_has_standard_patterns() {
    let config = Config::default();
    assert_eq!(config.patterns.len(), 3);
    assert_eq!(config.patterns[0].value, "mpv");
    assert!(config.patterns[1].always_pin);
    assert!(config.patterns[2].pinned_only);
}

#[test]
fn resolve_position_variable() {
    let config = sample_config();
    assert_eq!(config.resolve_position("x_left"), Some(100));
    assert_eq!(config.resolve_position("x_right"), Some(1200));
    assert_eq!(config.resolve_position("y_top"), Some(50));
    assert_eq!(config.resolve_position("y_bottom"), Some(700));
    assert_eq!(config.resolve_position("width"), Some(640));
    assert_eq!(config.resolve_position("height"), Some(360));
    assert_eq!(config.resolve_position("500"), Some(500));
    assert_eq!(config.resolve_position("-100"), Some(-100));
    assert_eq!(config.resolve_position("unknown"), None);
}

#[test]
fn resolve_position_zero() {
    assert_eq!(Config::default().resolve_position("0"), Some(0));
}

#[test]
fn resolve_position_negative() {
    assert_eq!(Config::default().resolve_position("-100"), Some(-100));
}

#[test]
fn resolve_position_large_value() {
    assert_eq!(Config::default().resolve_position("99999"), Some(99999));
}

#[test]
fn resolve_position_unknown_name() {
    assert_eq!(Config::default().resolve_position("nonexistent"), None);
}

#[test]
fn resolve_position_empty_string() {
    assert_eq!(Config::default().resolve_position(""), None);
}

#[test]
fn resolve_position_out_of_range_number() {
    assert_eq!(Config::default().resolve_position("2147483648"), None);
    assert_eq!(Config::default().resolve_position("-2147483648"), Some(i32::MIN));
    assert_eq!(Config::default().resolve_position("+7"), Some(7));
}

#[test]
fn get_override_for_class() {
    let config = sample_config();
    let firefox = config.positioning.get_override("firefox", "");
    assert!(firefox.is_some());
    assert_eq!(firefox.unwrap().pref_x.as_deref(), Some("x_right"));
    let code = config.positioning.get_override("code", "any title");
    assert!(code.is_some());
    assert_eq!(code.unwrap().pref_width, Some(800));
    assert!(config.positioning.get_override("unknown_class", "").is_none());
}

#[test]
fn get_override_for_title_regex() {
    let config = with_override("", "(?i)\u{2733}");
    let starred = config.positioning.get_override("kitty", "\u{2733} Session Notes");
    assert!(starred.is_some(), "Should match title with the star");
    assert_eq!(starred.unwrap().pref_x.as_deref(), Some("x_left"));
    assert!(config.positioning.get_override("kitty", "Some other title").is_none());
}

#[test]
fn get_override_class_and_title_both_must_match() {
    let config = with_override("kitty", "(?i)special");
    assert!(config.positioning.get_override("kitty", "Special Terminal").is_some());
    assert!(config.positioning.get_override("kitty", "Regular Terminal").is_none());
    assert!(config.positioning.get_override("firefox", "Special Page").is_none());
}

#[test]
fn get_override_class_only_matches_any_title() {
    let config = with_override("firefox", "");
    assert!(config.positioning.get_override("firefox", "any title here").is_some());
    assert!(config.positioning.get_override("firefox", "").is_some());
}

#[test]
fn get_override_title_only_matches_any_class() {
    let config = with_override("", "(?i)special");
    assert!(config.positioning.get_override("anything", "Special Window").is_some());
}

#[test]
fn get_override_class_is_case_insensitive() {
    let config = with_override("Firefox", "");
    assert!(config.positioning.get_override("firefox", "x").is_some());
}

#[test]
fn validate_accepts_default_config() {
    assert!(Config::default().validate(None).is_ok());
}

#[test]
fn validate_rejects_threshold_above_100() {
    let mut config = Config::default();
    config.positioning.wide_window_threshold = 101;
    let err = config.validate(None).unwrap_err();
    match err {
        ConfigError::InvalidValue { field, reason } => {
            assert_eq!(field, "positioning.wide_window_threshold");
            assert_eq!(reason, "must be in 0..=100 (got 101)");
        }
        other => panic!("got: {other:?}"),
    }
}

#[test]
fn validate_rejects_minified_scale_zero() {
    let config = Config::default();
    assert!(matches!(
        config.validate(Some("must be in (0.0, 1.0] (got 0)".to_string())).unwrap_err(),
        ConfigError::InvalidValue { field: "positioning.minified_scale", .. }
    ));
}

#[test]
fn validate_rejects_oversize_debounce_ms() {
    let mut config = Config::default();
    config.positioning.debounce_ms = 60_001;
    match config.validate(None).unwrap_err() {
        ConfigError::InvalidValue { field, reason } => {
            assert_eq!(field, "positioning.debounce_ms");
            assert_eq!(reason, "must be <= 60000 (got 60001)");
        }
        other => panic!("got: {other:?}"),
    }
}

#[test]
fn validate_rejects_oversize_suppress_ms() {
    let mut config = Config::default();
    config.positioning.suppress_ms = 60_001;
    assert!(matches!(
        config.validate(None).unwrap_err(),
        ConfigError::InvalidValue { field: "positioning.suppress_ms", .. }
    ));
}

#[test]
fn validate_accepts_zero_debounce_and_suppress() {
    let mut config = Config::default();
    config.positioning.debounce_ms = 0;
    config.positioning.suppress_ms = 0;
    assert!(config.validate(None).is_ok());
}

#[test]
fn validate_rejects_zero_or_negative_dimensions() {
    let mut config = Config::default();
    config.positions.width = 0;
    assert!(matches!(
        config.validate(None).unwrap_err(),
        ConfigError::InvalidValue { field: "positions.width", .. }
    ));
    let mut config = Config::default();
    config.positions.height = -1;
    match config.validate(None).unwrap_err() {
        ConfigError::InvalidValue { field, reason } => {
            assert_eq!(field, "positions.height");
            assert_eq!(reason, "must be > 0 (got -1)");
        }
        other => panic!("got: {other:?}"),
    }
}

#[test]
fn validate_rejects_invalid_pattern_regex() {
    let mut config = Config::default();
    config.patterns.push(Pattern {
        key: "title".into(),
        value: "[unclosed".into(),
        pinned_only: false,
        always_pin: false,
    });
    match config.validate(None).unwrap_err() {
        ConfigError::InvalidRegex { field, pattern, .. } => {
            assert_eq!(field, "patterns[].value");
            assert_eq!(pattern, "[unclosed");
        }
        other => panic!("got: {other:?}"),
    }
}

#[test]
fn validate_rejects_invalid_override_title_regex() {
    let mut config = Config::default();
    config.positioning.overrides.push(PositionOverride {
        focused_class: String::new(),
        focused_title: "[unclosed".into(),
        ..Default::default()
    });
    assert!(matches!(
        config.validate(None).unwrap_err(),
        ConfigError::InvalidRegex { field: "positioning.overrides[].focused_title", .. }
    ));
}

#[test]
fn validate_reports_first_broken_rule() {
    let mut config = Config::default();
    config.positioning.wide_window_threshold = 101;
    config.positions.width = 0;
    assert!(matches!(
        config.validate(None).unwrap_err(),
        ConfigError::InvalidValue { field: "positioning.wide_window_threshold", .. }
    ));
}

#[test]
fn config_size_cap() {
    assert!(check_size(1_048_576).is_ok());
    assert!(matches!(
        check_size(1_048_577),
        Err(ConfigError::TooLarge { size: 1_048_577, max: 1_048_576 })
    ));
}

#[test]
fn default_path_prefers_xdg_config_home() {
    assert_eq!(
        Config::default_path(Some("/cfg"), Some("/home/u")).unwrap(),
        "/cfg/media-control/config.toml"
    );
    assert_eq!(
        Config::default_path(Some(""), Some("/home/u")).unwrap(),
        "/home/u/.config/media-control/config.toml"
    );
    assert!(matches!(Config::default_path(None, None), Err(ConfigError::NoHomeDir)));
}

fn normal() -> MinifyState {
    MinifyState { minified: false, scaled_width: 300, scaled_height: 169 }
}

#[test]
fn effective_dimensions_normal() {
    let config = Config::default();
    let (w, h) = effective_dimensions(&config, normal());
    assert_eq!(w, config.positions.width);
    assert_eq!(h, config.positions.height);
}

#[test]
fn resolve_effective_position_normal() {
    let config = Config::default();
    assert_eq!(resolve_effective_position(&config, "x_left", normal()), Some(config.positions.x_left));
    assert_eq!(resolve_effective_position(&config, "x_right", normal()), Some(config.positions.x_right));
    assert_eq!(resolve_effective_position(&config, "unknown", normal()), None);
}

#[test]
fn minified_positions_keep_far_gap() {
    let config = Config::default();
    let m = MinifyState { minified: true, scaled_width: 300, scaled_height: 169 };
    assert!(minified_shift_fits(&config, m));
    assert_eq!(effective_dimensions(&config, m), (300, 169));
    assert_eq!(resolve_effective_position(&config, "x_right", m), Some(1272 + 300));
    assert_eq!(resolve_effective_position(&config, "y_bottom", m), Some(712 + 169));
    assert_eq!(resolve_effective_position(&config, "x_left", m), Some(48));
}

#[test]
fn shift_overflow_is_detected() {
    let mut config = Config::default();
    config.positions.x_right = i32::MAX;
    let m = MinifyState { minified: true, scaled_width: 300, scaled_height: 169 };
    assert!(!minified_shift_fits(&config, m));
}
