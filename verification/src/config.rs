//! Configuration model: window patterns, corner positions and avoidance
//! settings, with the load-time validation rules and the lookups the
//! commands use. Reading the file and TOML decoding happen outside the
//! library; the decoded values are handed to this model.
use vstd::prelude::*;

use crate::paths::{join_path, join_all};
use crate::text::{
    decimal, eq_ignore_ascii_case, eq_ignore_ascii_case_spec, parse_i32, parse_in_range,
    push_decimal, push_str, str_chars, string_from_chars, string_of,
};

verus! {

/// `toml::de::Error`, carried opaquely inside parse errors.
#[verifier::external_type_specification]
#[verifier::external_body]
pub struct ExTomlError(toml::de::Error);

/// `regex::Error`, carried opaquely inside regex errors.
#[verifier::external_type_specification]
#[verifier::external_body]
pub struct ExRegexError(regex::Error);

/// Largest config file accepted, in bytes (1 MiB).
pub const MAX_CONFIG_FILE_BYTES: u64 = 1048576;

/// Compiled-program size limit for a user-supplied title regex (64 KiB).
pub const TITLE_REGEX_SIZE_LIMIT: usize = 65536;

/// Ceiling for the debounce and suppression timeouts, in milliseconds.
pub const MS_CEILING: u16 = 60000;

/// Error type for configuration operations.
#[derive(Debug)]
pub enum ConfigError {
    Io(std::io::Error),
    Parse(toml::de::Error),
    TooLarge { size: u64, max: u64 },
    NoHomeDir,
    /// A field's value violates its documented invariants.
    InvalidValue { field: &'static str, reason: String },
    /// A user-supplied regex failed to compile.
    InvalidRegex { field: &'static str, pattern: String, source: regex::Error },
}

/// Root configuration.
#[derive(Debug, Clone)]
pub struct Config {
    /// Window matching patterns.
    pub patterns: Vec<Pattern>,
    /// Corner coordinates for positioning.
    pub positions: Positions,
    /// Avoidance behaviour settings.
    pub positioning: Positioning,
}

/// Window matching pattern.
#[derive(Debug, Clone)]
pub struct Pattern {
    /// Property to match: `class` or `title`.
    pub key: String,
    /// Regex pattern to match against the property value.
    pub value: String,
    /// Only match if the window is pinned or fullscreen.
    pub pinned_only: bool,
    /// Automatically pin windows matching this pattern.
    pub always_pin: bool,
}

/// Corner coordinates and default size, in pixels.
#[derive(Debug, Clone, Copy, PartialEq, Eq, Structural)]
pub struct Positions {
    pub x_left: i32,
    pub x_right: i32,
    pub y_top: i32,
    pub y_bottom: i32,
    pub width: i32,
    pub height: i32,
}

/// Avoidance behaviour settings (the minified scale factor, a float, is
/// kept by the caller; the model receives the dimensions it yields).
#[derive(Debug, Clone)]
pub struct Positioning {
    /// Percentage of the available width above which a window is "wide".
    pub wide_window_threshold: u8,
    /// Pixels of tolerance for position comparison.
    pub position_tolerance: u8,
    /// Debounce timeout in milliseconds for the daemon.
    pub debounce_ms: u16,
    /// Suppression timeout in milliseconds.
    pub suppress_ms: u16,
    /// Default X position variable name.
    pub default_x: String,
    /// Default Y position variable name.
    pub default_y: String,
    /// Secondary X position variable for the mouseover toggle.
    pub secondary_x: String,
    /// Secondary Y position variable for the mouseover toggle.
    pub secondary_y: String,
    /// Per-class position overrides.
    pub overrides: Vec<PositionOverride>,
}

/// Per-window position override, matched by class (case-insensitive)
/// and/or title regex.
#[derive(Debug, Clone)]
pub struct PositionOverride {
    pub focused_class: String,
    pub focused_title: String,
    pub pref_x: Option<String>,
    pub pref_y: Option<String>,
    pub secondary_x: Option<String>,
    pub secondary_y: Option<String>,
    pub pref_width: Option<i32>,
    pub pref_height: Option<i32>,
}

// ---------------------------------------------------------------------------
// Defaults
// ---------------------------------------------------------------------------
/// The default corner coordinates.
pub open spec fn default_positions() -> Positions {
    Positions { x_left: 48, x_right: 1272, y_top: 48, y_bottom: 712, width: 600, height: 338 }
}

impl Default for Positions {
    fn default() -> (p: Self)
        ensures
            p == default_positions(),
    {
        Positions { x_left: 48, x_right: 1272, y_top: 48, y_bottom: 712, width: 600, height: 338 }
    }
}

impl Default for Pattern {
    fn default() -> (p: Self)
        ensures
            p.key@ == "class"@,
            p.value@.len() == 0,
            !p.pinned_only,
            !p.always_pin,
    {
        Pattern { key: string_of("class"), value: String::new(), pinned_only: false, always_pin: false }
    }
}

impl Default for Positioning {
    fn default() -> (p: Self)
        ensures
            p.wide_window_threshold == 90,
            p.position_tolerance == 5,
            p.debounce_ms == 15,
            p.suppress_ms == 150,
            p.default_x@ == "x_right"@,
            p.default_y@ == "y_bottom"@,
            p.secondary_x@ == "x_left"@,
            p.secondary_y@ == "y_bottom"@,
            p.overrides@.len() == 0,
    {
        Positioning {
            wide_window_threshold: 90,
            position_tolerance: 5,
            debounce_ms: 15,
            suppress_ms: 150,
            default_x: string_of("x_right"),
            default_y: string_of("y_bottom"),
            secondary_x: string_of("x_left"),
            secondary_y: string_of("y_bottom"),
            overrides: Vec::new(),
        }
    }
}

impl Default for PositionOverride {
    fn default() -> (o: Self)
        ensures
            o.focused_class@.len() == 0,
            o.focused_title@.len() == 0,
            o.pref_x is None,
            o.pref_y is None,
            o.secondary_x is None,
            o.secondary_y is None,
            o.pref_width is None,
            o.pref_height is None,
    {
        PositionOverride {
            focused_class: String::new(),
            focused_title: String::new(),
            pref_x: None,
            pref_y: None,
            secondary_x: None,
            secondary_y: None,
            pref_width: None,
            pref_height: None,
        }
    }
}

impl Default for Config {
    /// The standard patterns (mpv; Picture-in-Picture, always pinned;
    /// Jellyfin Media Player, pinned-only) with default positions and
    /// positioning.
    fn default() -> (c: Self)
        ensures
            c.patterns@.len() == 3,
            c.patterns@[0].key@ == "class"@ && c.patterns@[0].value@ == "mpv"@
                && !c.patterns@[0].pinned_only && !c.patterns@[0].always_pin,
            c.patterns@[1].key@ == "title"@ && c.patterns@[1].value@ == "Picture-in-Picture"@
                && !c.patterns@[1].pinned_only && c.patterns@[1].always_pin,
            c.patterns@[2].key@ == "class"@ && c.patterns@[2].value@
                == "com.github.iwalton3.jellyfin-media-player"@ && c.patterns@[2].pinned_only
                && !c.patterns@[2].always_pin,
            c.positions == default_positions(),
            c.positioning.wide_window_threshold == 90,
            c.positioning.position_tolerance == 5,
            c.positioning.debounce_ms == 15,
            c.positioning.suppress_ms == 150,
            c.positioning.default_x@ == "x_right"@,
            c.positioning.default_y@ == "y_bottom"@,
            c.positioning.secondary_x@ == "x_left"@,
            c.positioning.secondary_y@ == "y_bottom"@,
            c.positioning.overrides@.len() == 0,
    {
        let mut patterns: Vec<Pattern> = Vec::new();
        patterns.push(
            Pattern {
                key: string_of("class"),
                value: string_of("mpv"),
                pinned_only: false,
                always_pin: false,
            },
        );
        patterns.push(
            Pattern {
                key: string_of("title"),
                value: string_of("Picture-in-Picture"),
                pinned_only: false,
                always_pin: true,
            },
        );
        patterns.push(
            Pattern {
                key: string_of("class"),
                value: string_of("com.github.iwalton3.jellyfin-media-player"),
                pinned_only: true,
                always_pin: false,
            },
        );
        Config { patterns, positions: Positions::default(), positioning: Positioning::default() }
    }
}

// ---------------------------------------------------------------------------
// Position-name resolution
// ---------------------------------------------------------------------------
/// The value a position name resolves to: one of the six variable names, or
/// else the name read as a decimal `i32`.
pub open spec fn resolve_position_spec(p: Positions, name: Seq<char>) -> Option<i32> {
    if name == "x_left"@ {
        Some(p.x_left)
    } else if name == "x_right"@ {
        Some(p.x_right)
    } else if name == "y_top"@ {
        Some(p.y_top)
    } else if name == "y_bottom"@ {
        Some(p.y_bottom)
    } else if name == "width"@ {
        Some(p.width)
    } else if name == "height"@ {
        Some(p.height)
    } else {
        match parse_in_range(name, true, i32::MIN as int, i32::MAX as int) {
            Some(v) => Some(v as i32),
            None => None,
        }
    }
}

impl Config {
    /// Resolve a position variable name to its value: `x_left`, `x_right`,
    /// `y_top`, `y_bottom`, `width`, `height`, or a literal integer.
    pub fn resolve_position(&self, name: &str) -> (r: Option<i32>)
        ensures
            r == resolve_position_spec(self.positions, name@),
    {
        let p = &self.positions;
        if crate::text::str_is(name, "x_left") {
            Some(p.x_left)
        } else if crate::text::str_is(name, "x_right") {
            Some(p.x_right)
        } else if crate::text::str_is(name, "y_top") {
            Some(p.y_top)
        } else if crate::text::str_is(name, "y_bottom") {
            Some(p.y_bottom)
        } else if crate::text::str_is(name, "width") {
            Some(p.width)
        } else if crate::text::str_is(name, "height") {
            Some(p.height)
        } else {
            parse_i32(name)
        }
    }
}

// ---------------------------------------------------------------------------
// Regex compilation and matching (regex crate)
// ---------------------------------------------------------------------------
/// Whether `regex::Regex::new` accepts `pattern`.
pub uninterp spec fn regex_compiles(pattern: Seq<char>) -> bool;

/// Whether `regex::RegexBuilder` with the given compiled-size limit accepts
/// `pattern`.
pub uninterp spec fn regex_compiles_within(pattern: Seq<char>, limit: int) -> bool;

/// Whether `pattern`, compiled by `regex::RegexBuilder` with the given size
/// limit, matches somewhere in `text` (false when compilation fails).
pub uninterp spec fn regex_matches_within(pattern: Seq<char>, limit: int, text: Seq<char>) -> bool;

/// Compiles `pattern` with `regex::Regex::new`; `Ok` exactly when the regex
/// crate accepts it, otherwise its error.
#[verifier::external_body]
fn compile_regex(pattern: &str) -> (r: Result<(), regex::Error>)
    ensures
        r is Ok <==> regex_compiles(pattern@),
{
    regex::Regex::new(pattern).map(|_| ())
}

/// Compiles `pattern` with `regex::RegexBuilder::new(pattern).size_limit(limit).build()`.
#[verifier::external_body]
fn compile_regex_within(pattern: &str, limit: usize) -> (r: Result<(), regex::Error>)
    ensures
        r is Ok <==> regex_compiles_within(pattern@, limit as int),
{
    regex::RegexBuilder::new(pattern).size_limit(limit).build().map(|_| ())
}

/// Compiles `pattern` with `RegexBuilder` and the given size limit, then
/// runs `Regex::is_match` on `text`; `false` when compilation fails.
#[verifier::external_body]
pub(crate) fn regex_match_within(pattern: &str, limit: usize, text: &str) -> (r: bool)
    ensures
        r == regex_matches_within(pattern@, limit as int, text@),
{
    regex::RegexBuilder::new(pattern).size_limit(limit).build().map(|re| re.is_match(text)).unwrap_or(
        false,
    )
}

// ---------------------------------------------------------------------------
// Overrides
// ---------------------------------------------------------------------------
/// The override's title matcher accepts `title`: no title pattern, or the
/// pattern (within the size limit) matches.
pub open spec fn title_matches(o: PositionOverride, title: Seq<char>) -> bool {
    o.focused_title@.len() == 0 || regex_matches_within(
        o.focused_title@,
        TITLE_REGEX_SIZE_LIMIT as int,
        title,
    )
}

/// An override applies to a focused window: it has at least one matcher,
/// and every matcher it has accepts the window (class compared ignoring
/// ASCII case, title by regex).
pub open spec fn override_applies(o: PositionOverride, class: Seq<char>, title: Seq<char>) -> bool {
    &&& (o.focused_class@.len() > 0 || o.focused_title@.len() > 0)
    &&& (o.focused_class@.len() == 0 || eq_ignore_ascii_case_spec(o.focused_class@, class))
    &&& title_matches(o, title)
}

/// `i` is the first override that applies.
pub open spec fn is_first_override(
    os: Seq<PositionOverride>,
    class: Seq<char>,
    title: Seq<char>,
    i: int,
) -> bool {
    0 <= i < os.len() && override_applies(os[i], class, title) && forall|j: int|
        0 <= j < i ==> !override_applies(#[trigger] os[j], class, title)
}

impl PositionOverride {
    /// Check if the given title matches this override's pattern.
    pub fn matches_title(&self, title: &str) -> (r: bool)
        ensures
            r == title_matches(*self, title@),
    {
        if str_chars(self.focused_title.as_str()).len() == 0 {
            true
        } else {
            regex_match_within(self.focused_title.as_str(), TITLE_REGEX_SIZE_LIMIT, title)
        }
    }

    /// Whether this override applies to a window of this class and title.
    pub fn applies_to(&self, focused_class: &str, focused_title: &str) -> (r: bool)
        ensures
            r == override_applies(*self, focused_class@, focused_title@),
    {
        let oc = str_chars(self.focused_class.as_str());
        let ot_len = str_chars(self.focused_title.as_str()).len();
        let cc = str_chars(focused_class);
        let class_matches = oc.len() == 0 || eq_ignore_ascii_case(oc.as_slice(), cc.as_slice());
        let title_ok = self.matches_title(focused_title);
        let has_matcher = oc.len() > 0 || ot_len > 0;
        has_matcher && class_matches && title_ok
    }
}

impl Positioning {
    /// The first override matching the focused window's class
    /// (case-insensitive) and/or title (regex), if any.
    pub fn get_override(&self, focused_class: &str, focused_title: &str) -> (r: Option<
        &PositionOverride,
    >)
        ensures
            match r {
                Some(o) => exists|i: int|
                    is_first_override(self.overrides@, focused_class@, focused_title@, i)
                        && self.overrides@[i] == *o,
                None => forall|j: int|
                    0 <= j < self.overrides@.len() ==> !override_applies(
                        #[trigger] self.overrides@[j],
                        focused_class@,
                        focused_title@,
                    ),
            },
    {
        let mut i: usize = 0;
        while i < self.overrides.len()
            invariant
                i <= self.overrides@.len(),
                forall|j: int|
                    0 <= j < i ==> !override_applies(
                        #[trigger] self.overrides@[j],
                        focused_class@,
                        focused_title@,
                    ),
            decreases self.overrides.len() - i,
        {
            if self.overrides[i].applies_to(focused_class, focused_title) {
                assert(is_first_override(
                    self.overrides@,
                    focused_class@,
                    focused_title@,
                    i as int,
                ));
                return Some(&self.overrides[i]);
            }
            i = i + 1;
        }
        None
    }
}

// ---------------------------------------------------------------------------
// Validation
// ---------------------------------------------------------------------------
/// A validation failure as the rules describe it.
pub enum Violation {
    /// An out-of-range value: the offending field and the reason text.
    Value { field: Seq<char>, reason: Seq<char> },
    /// A regex that does not compile: the field and the offending pattern.
    Regex { field: Seq<char>, pattern: Seq<char> },
}

/// `must be <= <ceiling> (got <value>)`.
pub open spec fn ceiling_reason(ceiling: int, value: int) -> Seq<char> {
    "must be <= "@ + decimal(ceiling) + " (got "@ + decimal(value) + ")"@
}

/// `must be > 0 (got <value>)`.
pub open spec fn positive_reason(value: int) -> Seq<char> {
    "must be > 0 (got "@ + decimal(value) + ")"@
}

/// `must be in 0..=100 (got <value>)`.
pub open spec fn percent_reason(value: int) -> Seq<char> {
    "must be in 0..=100 (got "@ + decimal(value) + ")"@
}

/// `e` is the error that reports violation `v`.
pub open spec fn reports(e: ConfigError, v: Violation) -> bool {
    match v {
        Violation::Value { field, reason } => e matches ConfigError::InvalidValue { field: f, reason: r }
            && f@ == field && r@ == reason,
        Violation::Regex { field, pattern } => e matches ConfigError::InvalidRegex { field: f, pattern: p, .. }
            && f@ == field && p@ == pattern,
    }
}

/// First pattern whose regex does not compile.
pub open spec fn first_bad_pattern(ps: Seq<Pattern>) -> Option<int> {
    if exists|i: int| 0 <= i < ps.len() && !regex_compiles(#[trigger] ps[i].value@) {
        Some(
            choose|i: int|
                0 <= i < ps.len() && !regex_compiles(#[trigger] ps[i].value@) && forall|j: int|
                    0 <= j < i ==> regex_compiles(#[trigger] ps[j].value@),
        )
    } else {
        None
    }
}

/// An override title pattern that is set but does not compile within the
/// size limit.
pub open spec fn bad_title(o: PositionOverride) -> bool {
    o.focused_title@.len() > 0 && !regex_compiles_within(
        o.focused_title@,
        TITLE_REGEX_SIZE_LIMIT as int,
    )
}

/// First override whose title regex does not compile.
pub open spec fn first_bad_override(os: Seq<PositionOverride>) -> Option<int> {
    if exists|i: int| 0 <= i < os.len() && bad_title(#[trigger] os[i]) {
        Some(
            choose|i: int|
                0 <= i < os.len() && bad_title(#[trigger] os[i]) && forall|j: int|
                    0 <= j < i ==> !bad_title(#[trigger] os[j]),
        )
    } else {
        None
    }
}

/// The first rule a configuration breaks, in the order the rules are
/// checked: wide-window threshold, minified scale (judged by the caller,
/// who passes its reason), debounce and suppression ceilings, positive
/// width and height, pattern regexes, override title regexes.
pub open spec fn first_violation(c: Config, scale_reason: Option<Seq<char>>) -> Option<Violation> {
    let p = c.positioning;
    if p.wide_window_threshold > 100 {
        Some(
            Violation::Value {
                field: "positioning.wide_window_threshold"@,
                reason: percent_reason(p.wide_window_threshold as int),
            },
        )
    } else if scale_reason is Some {
        Some(Violation::Value { field: "positioning.minified_scale"@, reason: scale_reason->0 })
    } else if p.debounce_ms > MS_CEILING {
        Some(
            Violation::Value {
                field: "positioning.debounce_ms"@,
                reason: ceiling_reason(MS_CEILING as int, p.debounce_ms as int),
            },
        )
    } else if p.suppress_ms > MS_CEILING {
        Some(
            Violation::Value {
                field: "positioning.suppress_ms"@,
                reason: ceiling_reason(MS_CEILING as int, p.suppress_ms as int),
            },
        )
    } else if c.positions.width <= 0 {
        Some(
            Violation::Value {
                field: "positions.width"@,
                reason: positive_reason(c.positions.width as int),
            },
        )
    } else if c.positions.height <= 0 {
        Some(
            Violation::Value {
                field: "positions.height"@,
                reason: positive_reason(c.positions.height as int),
            },
        )
    } else if first_bad_pattern(c.patterns@) is Some {
        Some(
            Violation::Regex {
                field: "patterns[].value"@,
                pattern: c.patterns@[first_bad_pattern(c.patterns@)->0].value@,
            },
        )
    } else if first_bad_override(p.overrides@) is Some {
        Some(
            Violation::Regex {
                field: "positioning.overrides[].focused_title"@,
                pattern: p.overrides@[first_bad_override(p.overrides@)->0].focused_title@,
            },
        )
    } else {
        None
    }
}

fn reason_text(prefix: &str, value: i64, suffix_ceiling: Option<i64>) -> (r: String)
    ensures
        r@ == match suffix_ceiling {
            Some(c) => prefix@ + decimal(c as int) + " (got "@ + decimal(value as int) + ")"@,
            None => prefix@ + decimal(value as int) + ")"@,
        },
{
    let mut out: Vec<char> = Vec::new();
    push_str(&mut out, prefix);
    match suffix_ceiling {
        Some(c) => {
            push_decimal(&mut out, c);
            push_str(&mut out, " (got ");
            push_decimal(&mut out, value);
        },
        None => {
            push_decimal(&mut out, value);
        },
    }
    push_str(&mut out, ")");
    string_from_chars(&out)
}

/// Reject values exceeding a millisecond ceiling.
pub fn check_ms_ceiling(field: &'static str, value: u16, ceiling: u16) -> (r: Result<(), ConfigError>)
    ensures
        value <= ceiling ==> r is Ok,
        value > ceiling ==> reports(
            r->Err_0,
            Violation::Value { field: field@, reason: ceiling_reason(ceiling as int, value as int) },
        ) && r is Err,
{
    if value > ceiling {
        return Err(
            ConfigError::InvalidValue {
                field,
                reason: reason_text("must be <= ", value as i64, Some(ceiling as i64)),
            },
        );
    }
    Ok(())
}

/// Reject non-positive integer values.
pub fn check_positive(field: &'static str, value: i32) -> (r: Result<(), ConfigError>)
    ensures
        value > 0 ==> r is Ok,
        value <= 0 ==> r is Err && reports(
            r->Err_0,
            Violation::Value { field: field@, reason: positive_reason(value as int) },
        ),
{
    if value <= 0 {
        return Err(
            ConfigError::InvalidValue {
                field,
                reason: reason_text("must be > 0 (got ", value as i64, None),
            },
        );
    }
    Ok(())
}

/// Reject a file (or read) larger than the config size cap.
pub fn check_size(len: u64) -> (r: Result<(), ConfigError>)
    ensures
        len <= MAX_CONFIG_FILE_BYTES ==> r is Ok,
        len > MAX_CONFIG_FILE_BYTES ==> (r matches Err(ConfigError::TooLarge { size, max })
            && size == len && max == MAX_CONFIG_FILE_BYTES),
{
    if len > MAX_CONFIG_FILE_BYTES {
        return Err(ConfigError::TooLarge { size: len, max: MAX_CONFIG_FILE_BYTES });
    }
    Ok(())
}

impl Config {
    /// Validate the configuration invariants, reporting the first broken
    /// rule (see [`first_violation`]). The minified scale factor is a float
    /// judged by the caller: `scale_reason` is `None` when it is finite and
    /// in `(0.0, 1.0]`, else the reason text to report.
    pub fn validate(&self, scale_reason: Option<String>) -> (r: Result<(), ConfigError>)
        ensures
            match first_violation(
                *self,
                match scale_reason {
                    Some(s) => Some(s@),
                    None => None,
                },
            ) {
                None => r is Ok,
                Some(v) => r is Err && reports(r->Err_0, v),
            },
    {
        let p = &self.positioning;
        if p.wide_window_threshold > 100 {
            return Err(
                ConfigError::InvalidValue {
                    field: "positioning.wide_window_threshold",
                    reason: reason_text(
                        "must be in 0..=100 (got ",
                        p.wide_window_threshold as i64,
                        None,
                    ),
                },
            );
        }
        match scale_reason {
            Some(reason) => {
                return Err(ConfigError::InvalidValue { field: "positioning.minified_scale", reason });
            },
            None => {},
        }
        check_ms_ceiling("positioning.debounce_ms", p.debounce_ms, MS_CEILING)?;
        check_ms_ceiling("positioning.suppress_ms", p.suppress_ms, MS_CEILING)?;
        check_positive("positions.width", self.positions.width)?;
        check_positive("positions.height", self.positions.height)?;
        Self::validate_pattern_regexes(&self.patterns)?;
        Self::validate_override_regexes(&p.overrides)
    }

    /// Validate that every pattern regex compiles.
    pub fn validate_pattern_regexes(patterns: &[Pattern]) -> (r: Result<(), ConfigError>)
        ensures
            match first_bad_pattern(patterns@) {
                None => r is Ok,
                Some(i) => r is Err && reports(
                    r->Err_0,
                    Violation::Regex { field: "patterns[].value"@, pattern: patterns@[i].value@ },
                ),
            },
    {
        let mut i: usize = 0;
        while i < patterns.len()
            invariant
                i <= patterns@.len(),
                forall|j: int| 0 <= j < i ==> regex_compiles(#[trigger] patterns@[j].value@),
            decreases patterns.len() - i,
        {
            match compile_regex(patterns[i].value.as_str()) {
                Ok(()) => {},
                Err(source) => {
                    proof {
                        let ps = patterns@;
                        assert(0 <= i < ps.len() && !regex_compiles(ps[i as int].value@));
                        let k = first_bad_pattern(ps)->0;
                        assert(k == i) by {
                            if k < i {
                                assert(regex_compiles(ps[k].value@));
                            } else if k > i {
                                assert(regex_compiles(ps[i as int].value@));
                            }
                        }
                    }
                    return Err(
                        ConfigError::InvalidRegex {
                            field: "patterns[].value",
                            pattern: patterns[i].value.clone(),
                            source,
                        },
                    );
                },
            }
            i = i + 1;
        }
        Ok(())
    }

    /// Validate that every set override title regex compiles within the
    /// size limit used when matching.
    pub fn validate_override_regexes(overrides: &[PositionOverride]) -> (r: Result<(), ConfigError>)
        ensures
            match first_bad_override(overrides@) {
                None => r is Ok,
                Some(i) => r is Err && reports(
                    r->Err_0,
                    Violation::Regex {
                        field: "positioning.overrides[].focused_title"@,
                        pattern: overrides@[i].focused_title@,
                    },
                ),
            },
    {
        let mut i: usize = 0;
        while i < overrides.len()
            invariant
                i <= overrides@.len(),
                forall|j: int| 0 <= j < i ==> !bad_title(#[trigger] overrides@[j]),
            decreases overrides.len() - i,
        {
            let o = &overrides[i];
            if str_chars(o.focused_title.as_str()).len() > 0 {
                match compile_regex_within(o.focused_title.as_str(), TITLE_REGEX_SIZE_LIMIT) {
                    Ok(()) => {},
                    Err(source) => {
                        proof {
                            let os = overrides@;
                            assert(bad_title(os[i as int]));
                            let k = first_bad_override(os)->0;
                            assert(k == i) by {
                                if k < i {
                                    assert(!bad_title(os[k]));
                                } else if k > i {
                                    assert(!bad_title(os[i as int]));
                                }
                            }
                        }
                        return Err(
                            ConfigError::InvalidRegex {
                                field: "positioning.overrides[].focused_title",
                                pattern: o.focused_title.clone(),
                                source,
                            },
                        );
                    },
                }
            }
            i = i + 1;
        }
        Ok(())
    }

    /// The configuration file path: `$XDG_CONFIG_HOME` (when set and
    /// non-empty) or else `$HOME/.config`, joined with
    /// `media-control/config.toml`; `NoHomeDir` when neither is available.
    pub fn default_path(xdg_config_home: Option<&str>, home: Option<&str>) -> (r: Result<
        String,
        ConfigError,
    >)
        ensures
            match config_dir(
                match xdg_config_home {
                    Some(x) => Some(x@),
                    None => None,
                },
                match home {
                    Some(h) => Some(h@),
                    None => None,
                },
            ) {
                Some(d) => r is Ok && r->Ok_0@ == join_path(
                    join_path(d, "media-control"@),
                    "config.toml"@,
                ),
                None => r matches Err(ConfigError::NoHomeDir),
            },
    {
        let dir: Vec<char> = match xdg_config_home {
            Some(x) if str_chars(x).len() > 0 => str_chars(x),
            _ => match home {
                Some(h) => {
                    let hc = str_chars(h);
                    crate::paths::join(hc.as_slice(), ".config")
                },
                None => {
                    return Err(ConfigError::NoHomeDir);
                },
            },
        };
        let comps = ["media-control", "config.toml"];
        let p = join_all(dir.as_slice(), &comps);
        proof {
            let cs = comps@.map_values(|c: &str| c@);
            assert(cs.drop_last().drop_last() =~= Seq::<Seq<char>>::empty());
            assert(crate::paths::join_seq(dir@, cs.drop_last().drop_last()) == dir@);
            assert(crate::paths::join_seq(dir@, cs.drop_last()) == join_path(dir@, cs[0]));
        }
        Ok(p)
    }
}

/// The configuration directory from the environment.
pub open spec fn config_dir(xdg_config_home: Option<Seq<char>>, home: Option<Seq<char>>) -> Option<
    Seq<char>,
> {
    match xdg_config_home {
        Some(x) if x.len() > 0 => Some(x),
        _ => match home {
            Some(h) => Some(join_path(h, ".config"@)),
            None => None,
        },
    }
}

} // verus!
