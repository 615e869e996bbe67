//! Hyprland action bodies for window commands, the focus-restore batches,
//! the default-position reposition, and the runtime-directory paths the
//! commands share (suppress stamp, minified marker).
use vstd::prelude::*;

use crate::config::Config;
use crate::error::MediaControlError;
use crate::hyprland::{address_shape, is_valid_address};
use crate::paths::{contains_parent_dir, has_parent_dir, is_absolute, join_path, path_is_absolute};
use crate::position::{default_placement, default_placement_for, shift_fits, MinifyState, Placement};
use crate::text::{
    decimal, lemma_decimal_round_trip, nat_digits, parse_in_range, push_decimal, push_str,
    str_chars, string_from_chars, string_of, trim,
};

verus! {

/// An address is acceptable in an action body: empty, or of the canonical
/// shape.
pub open spec fn action_address(addr: Seq<char>) -> bool {
    addr.len() == 0 || address_shape(addr)
}

/// Whether `addr` may be interpolated into an action body: empty (a no-op
/// target for Hyprland) or of the canonical address shape. Addresses from
/// Hyprland are already normalised this way; this is the development-time
/// check of that.
pub fn assert_valid_addr(addr: &str) -> (ok: bool)
    ensures
        ok == action_address(addr@),
{
    str_chars(addr).len() == 0 || is_valid_address(addr)
}

fn prefixed(prefix: &str, addr: &str) -> (s: String)
    ensures
        s@ == prefix@ + addr@,
{
    let mut out: Vec<char> = Vec::new();
    push_str(&mut out, prefix);
    push_str(&mut out, addr);
    string_from_chars(&out)
}

/// `focuswindow address:<addr>`.
pub fn focus_window_action(addr: &str) -> (s: String)
    ensures
        s@ == "focuswindow address:"@ + addr@,
{
    prefixed("focuswindow address:", addr)
}

/// `pin address:<addr>` (toggles the pin state).
pub fn pin_action(addr: &str) -> (s: String)
    ensures
        s@ == "pin address:"@ + addr@,
{
    prefixed("pin address:", addr)
}

/// `togglefloating address:<addr>`.
pub fn toggle_floating_action(addr: &str) -> (s: String)
    ensures
        s@ == "togglefloating address:"@ + addr@,
{
    prefixed("togglefloating address:", addr)
}

/// `closewindow address:<addr>`.
pub fn close_window_action(addr: &str) -> (s: String)
    ensures
        s@ == "closewindow address:"@ + addr@,
{
    prefixed("closewindow address:", addr)
}

/// The text of `<verb> exact <a> <b>,address:<addr>`.
pub open spec fn exact_action(verb: Seq<char>, addr: Seq<char>, a: int, b: int) -> Seq<char> {
    verb + " exact "@ + decimal(a) + " "@ + decimal(b) + ",address:"@ + addr
}

fn exact(verb: &str, addr: &str, a: i32, b: i32) -> (s: String)
    ensures
        s@ == exact_action(verb@, addr@, a as int, b as int),
{
    let mut out: Vec<char> = Vec::new();
    push_str(&mut out, verb);
    push_str(&mut out, " exact ");
    push_decimal(&mut out, a as i64);
    push_str(&mut out, " ");
    push_decimal(&mut out, b as i64);
    push_str(&mut out, ",address:");
    push_str(&mut out, addr);
    string_from_chars(&out)
}

/// `movewindowpixel exact <x> <y>,address:<addr>`.
pub fn move_pixel_action(addr: &str, x: i32, y: i32) -> (s: String)
    ensures
        s@ == exact_action("movewindowpixel"@, addr@, x as int, y as int),
{
    exact("movewindowpixel", addr, x, y)
}

/// `resizewindowpixel exact <w> <h>,address:<addr>`.
pub fn resize_pixel_action(addr: &str, w: i32, h: i32) -> (s: String)
    ensures
        s@ == exact_action("resizewindowpixel"@, addr@, w as int, h as int),
{
    exact("resizewindowpixel", addr, w, h)
}

/// The views of a list of owned strings.
pub open spec fn string_views(v: Seq<String>) -> Seq<Seq<char>> {
    v.map_values(|s: String| s@)
}

/// The views of a list of borrowed strings.
pub open spec fn str_views(v: Seq<&str>) -> Seq<Seq<char>> {
    v.map_values(|s: &str| s@)
}

/// Borrow each owned command string, in order.
pub fn as_str_refs(cmds: &[String]) -> (r: Vec<&str>)
    ensures
        str_views(r@) == string_views(cmds@),
{
    let mut r: Vec<&str> = Vec::new();
    let mut i: usize = 0;
    while i < cmds.len()
        invariant
            i <= cmds@.len(),
            str_views(r@) == string_views(cmds@.take(i as int)),
        decreases cmds.len() - i,
    {
        let ghost old_r = r@;
        r.push(cmds[i].as_str());
        proof {
            assert(str_views(r@) =~= str_views(old_r).push(cmds@[i as int]@));
            assert(string_views(cmds@.take(i + 1)) =~= string_views(cmds@.take(i as int)).push(
                cmds@[i as int]@,
            ));
        }
        i = i + 1;
    }
    assert(cmds@.take(i as int) =~= cmds@);
    r
}

// ---------------------------------------------------------------------------
// Focus restore
// ---------------------------------------------------------------------------
/// The three batches of a focus restore that does not warp the cursor:
/// the modern `cursor:no_warps` batch; if it fails, a lone reset of that
/// keyword (its failure is only logged) and then the legacy
/// `general:no_cursor_warps` batch, whose failure is the result.
#[derive(Debug)]
pub struct FocusRestore {
    pub modern: Vec<String>,
    pub reset: Vec<String>,
    pub legacy: Vec<String>,
}

/// `dispatch focuswindow address:<addr>`.
pub open spec fn focus_dispatch(addr: Seq<char>) -> Seq<char> {
    "dispatch "@ + ("focuswindow address:"@ + addr)
}

/// Build the focus-restore batches for `addr`.
pub fn restore_focus_batches(addr: &str) -> (r: FocusRestore)
    ensures
        string_views(r.modern@) == seq![
            "keyword cursor:no_warps true"@,
            focus_dispatch(addr@),
            "keyword cursor:no_warps false"@,
        ],
        string_views(r.reset@) == seq!["keyword cursor:no_warps false"@],
        string_views(r.legacy@) == seq![
            "keyword general:no_cursor_warps true"@,
            focus_dispatch(addr@),
            "keyword general:no_cursor_warps false"@,
        ],
{
    let fa = focus_window_action(addr);
    let focus = prefixed("dispatch ", fa.as_str());
    let mut modern: Vec<String> = Vec::new();
    modern.push(string_of("keyword cursor:no_warps true"));
    modern.push(focus.clone());
    modern.push(string_of("keyword cursor:no_warps false"));
    let mut reset: Vec<String> = Vec::new();
    reset.push(string_of("keyword cursor:no_warps false"));
    let mut legacy: Vec<String> = Vec::new();
    legacy.push(string_of("keyword general:no_cursor_warps true"));
    legacy.push(focus);
    legacy.push(string_of("keyword general:no_cursor_warps false"));
    assert(string_views(modern@) =~= seq![
        "keyword cursor:no_warps true"@,
        focus_dispatch(addr@),
        "keyword cursor:no_warps false"@,
    ]);
    assert(string_views(reset@) =~= seq!["keyword cursor:no_warps false"@]);
    assert(string_views(legacy@) =~= seq![
        "keyword general:no_cursor_warps true"@,
        focus_dispatch(addr@),
        "keyword general:no_cursor_warps false"@,
    ]);
    FocusRestore { modern, reset, legacy }
}

// ---------------------------------------------------------------------------
// Reposition to default
// ---------------------------------------------------------------------------
/// The two dispatch actions that put `addr` at `pl`: resize, then move.
pub open spec fn placement_actions(addr: Seq<char>, pl: Placement) -> Seq<Seq<char>> {
    seq![
        exact_action("resizewindowpixel"@, addr, pl.width as int, pl.height as int),
        exact_action("movewindowpixel"@, addr, pl.x as int, pl.y as int),
    ]
}

/// The dispatch actions that resize `addr` to the effective size and move it
/// to its default corner for mode `m` (the caller stamps the suppression
/// file right before dispatching them as one batch).
pub fn reposition_actions(config: &Config, addr: &str, m: MinifyState) -> (r: Vec<String>)
    requires
        shift_fits(config.positions, m),
    ensures
        string_views(r@) == placement_actions(addr@, default_placement(*config, m)),
{
    let pl = default_placement_for(config, m);
    let mut r: Vec<String> = Vec::new();
    r.push(resize_pixel_action(addr, pl.width, pl.height));
    r.push(move_pixel_action(addr, pl.x, pl.y));
    assert(string_views(r@) =~= placement_actions(addr@, pl));
    r
}

// ---------------------------------------------------------------------------
// Runtime directory paths
// ---------------------------------------------------------------------------
/// The message for a missing or unusable `XDG_RUNTIME_DIR`.
pub open spec fn runtime_dir_message() -> Seq<char> {
    "XDG_RUNTIME_DIR is required: must be set to an absolute, existing directory path with no `..` components"@
}

/// `XDG_RUNTIME_DIR` is usable: set, absolute, free of `..` components, and
/// an existing directory.
pub open spec fn runtime_dir_ok(raw: Option<Seq<char>>, is_dir: bool) -> bool {
    match raw {
        Some(p) => is_absolute(p) && !has_parent_dir(p) && is_dir,
        None => false,
    }
}

/// The runtime directory from `$XDG_RUNTIME_DIR` (`raw`; `is_dir` tells
/// whether it names an existing directory). There is no fallback: an unset,
/// relative, `..`-laden or non-existent value is an invalid-argument error.
pub fn runtime_dir(raw: Option<&str>, is_dir: bool) -> (r: Result<String, MediaControlError>)
    ensures
        runtime_dir_ok(
            match raw {
                Some(p) => Some(p@),
                None => None,
            },
            is_dir,
        ) ==> r is Ok && r->Ok_0@ == raw->0@,
        !runtime_dir_ok(
            match raw {
                Some(p) => Some(p@),
                None => None,
            },
            is_dir,
        ) ==> (r matches Err(MediaControlError::InvalidArgument(m)) && m@ == runtime_dir_message()),
{
    match raw {
        Some(p) => {
            let c = str_chars(p);
            if path_is_absolute(c.as_slice()) && !contains_parent_dir(c.as_slice()) && is_dir {
                return Ok(string_of(p));
            }
        },
        None => {},
    }
    Err(
        MediaControlError::invalid_argument(
            string_of(
                "XDG_RUNTIME_DIR is required: must be set to an absolute, existing directory path with no `..` components",
            ),
        ),
    )
}

/// `file` inside the runtime directory.
pub fn runtime_file(raw: Option<&str>, is_dir: bool, file: &str) -> (r: Result<
    String,
    MediaControlError,
>)
    ensures
        runtime_dir_ok(
            match raw {
                Some(p) => Some(p@),
                None => None,
            },
            is_dir,
        ) ==> r is Ok && r->Ok_0@ == join_path(raw->0@, file@),
        !runtime_dir_ok(
            match raw {
                Some(p) => Some(p@),
                None => None,
            },
            is_dir,
        ) ==> (r matches Err(MediaControlError::InvalidArgument(m)) && m@ == runtime_dir_message()),
{
    let dir = runtime_dir(raw, is_dir)?;
    let d = str_chars(dir.as_str());
    let p = crate::paths::join(d.as_slice(), file);
    Ok(string_from_chars(&p))
}

/// Path of the avoider suppress file: `$XDG_RUNTIME_DIR/media-avoider-suppress`.
pub fn get_suppress_file_path(raw: Option<&str>, is_dir: bool) -> (r: Result<
    String,
    MediaControlError,
>)
    ensures
        runtime_dir_ok(
            match raw {
                Some(p) => Some(p@),
                None => None,
            },
            is_dir,
        ) ==> r is Ok && r->Ok_0@ == join_path(raw->0@, "media-avoider-suppress"@),
        !runtime_dir_ok(
            match raw {
                Some(p) => Some(p@),
                None => None,
            },
            is_dir,
        ) ==> (r matches Err(MediaControlError::InvalidArgument(m)) && m@ == runtime_dir_message()),
{
    runtime_file(raw, is_dir, "media-avoider-suppress")
}

/// Path of the minified-mode marker: `$XDG_RUNTIME_DIR/media-control-minified`.
pub fn get_minify_state_path(raw: Option<&str>, is_dir: bool) -> (r: Result<
    String,
    MediaControlError,
>)
    ensures
        runtime_dir_ok(
            match raw {
                Some(p) => Some(p@),
                None => None,
            },
            is_dir,
        ) ==> r is Ok && r->Ok_0@ == join_path(raw->0@, "media-control-minified"@),
        !runtime_dir_ok(
            match raw {
                Some(p) => Some(p@),
                None => None,
            },
            is_dir,
        ) ==> (r matches Err(MediaControlError::InvalidArgument(m)) && m@ == runtime_dir_message()),
{
    runtime_file(raw, is_dir, "media-control-minified")
}

/// Minified mode is on iff the runtime directory is usable and the marker
/// exists in it (`marker_exists`); an unusable runtime directory means off.
pub fn is_minified(raw: Option<&str>, is_dir: bool, marker_exists: bool) -> (r: bool)
    ensures
        r == (runtime_dir_ok(
            match raw {
                Some(p) => Some(p@),
                None => None,
            },
            is_dir,
        ) && marker_exists),
{
    match get_minify_state_path(raw, is_dir) {
        Ok(_) => marker_exists,
        Err(_) => false,
    }
}

// ---------------------------------------------------------------------------
// Suppression stamps
// ---------------------------------------------------------------------------
/// Whether a suppression stamp taken at `stamp_ms` still suppresses at
/// `now_ms`: less than `timeout_ms` has passed (a stamp in the future
/// counts as zero elapsed time).
pub open spec fn stamp_suppresses(now_ms: u64, stamp_ms: u64, timeout_ms: u64) -> bool {
    (if now_ms >= stamp_ms {
        now_ms - stamp_ms
    } else {
        0
    }) < timeout_ms
}

/// See [`stamp_suppresses`].
pub fn stamp_is_fresh(now_ms: u64, stamp_ms: u64, timeout_ms: u64) -> (r: bool)
    ensures
        r == stamp_suppresses(now_ms, stamp_ms, timeout_ms),
{
    now_ms.saturating_sub(stamp_ms) < timeout_ms
}

/// The suppress file's content (`None` when it is missing or unreadable)
/// holds off the avoider: after trimming it parses as a `u64` millisecond
/// stamp that is still fresh.
pub open spec fn file_suppresses(content: Option<Seq<char>>, now_ms: u64, timeout_ms: u64) -> bool {
    match content {
        None => false,
        Some(c) => match crate::text::parse_in_range(crate::text::trim(c), false, 0, u64::MAX as int) {
            Some(v) => stamp_suppresses(now_ms, v as u64, timeout_ms),
            None => false,
        },
    }
}

/// The content of an optional string as a model.
pub open spec fn opt_str_view(content: Option<&str>) -> Option<Seq<char>> {
    match content {
        Some(c) => Some(c@),
        None => None,
    }
}

/// Whether the avoider should skip this run given the suppress file's
/// content (see [`file_suppresses`]).
pub fn should_suppress(content: Option<&str>, now_ms: u64, timeout_ms: u64) -> (r: bool)
    ensures
        r == file_suppresses(opt_str_view(content), now_ms, timeout_ms),
{
    match content {
        None => false,
        Some(c) => match parse_stamp(c) {
            Some(v) => stamp_is_fresh(now_ms, v, timeout_ms),
            None => false,
        },
    }
}

/// The first step of an avoid run.
#[derive(Debug, Clone, Copy, PartialEq, Eq, Structural)]
pub enum AvoidEntry {
    /// A fresh suppression stamp holds the avoider off: the run ends with
    /// no request to Hyprland at all.
    Suppressed,
    /// Fetch the client list once (its error ends the run) and plan the
    /// pass on that one snapshot.
    QueryClients,
}

/// How an avoid run starts, given the suppress file's content (`None` when
/// missing or unreadable), the time and the suppression timeout: it is
/// suppressed exactly when the file holds a fresh stamp, and otherwise
/// queries the clients.
pub fn avoid_entry(content: Option<&str>, now_ms: u64, timeout_ms: u64) -> (r: AvoidEntry)
    ensures
        r == (if file_suppresses(opt_str_view(content), now_ms, timeout_ms) {
            AvoidEntry::Suppressed
        } else {
            AvoidEntry::QueryClients
        }),
{
    if should_suppress(content, now_ms, timeout_ms) {
        AvoidEntry::Suppressed
    } else {
        AvoidEntry::QueryClients
    }
}

/// The millisecond stamp in a suppress file: its trimmed content as a
/// `u64`.
pub fn parse_stamp(content: &str) -> (r: Option<u64>)
    ensures
        r == match crate::text::parse_in_range(crate::text::trim(content@), false, 0, u64::MAX as int) {
            Some(v) => Some(v as u64),
            None => None::<u64>,
        },
{
    let c = str_chars(content);
    let t = crate::text::trimmed(c.as_slice());
    match crate::text::parse_int(t.as_slice(), false, 0, u64::MAX as i128) {
        Some(v) => Some(v as u64),
        None => None,
    }
}

/// Wall-clock milliseconds as a `u64`, saturating at `u64::MAX`.
pub fn millis_saturating(raw: u128) -> (r: u64)
    ensures
        r == if raw > u64::MAX as u128 {
            u64::MAX
        } else {
            raw as u64
        },
{
    if raw > u64::MAX as u128 {
        u64::MAX
    } else {
        raw as u64
    }
}

/// The text written to the suppress file to stamp it now: the decimal
/// milliseconds. Clearing writes `0`, which is always stale.
pub fn suppress_stamp_text(now_ms: u64) -> (s: String)
    ensures
        s@ == crate::text::nat_digits(now_ms as nat),
{
    let mut out: Vec<char> = Vec::new();
    crate::text::push_nat_digits(&mut out, now_ms);
    string_from_chars(&out)
}

/// A cleared stamp (written as `0`) never suppresses a run with a positive
/// timeout at any time after the epoch that is at least the timeout.
pub proof fn lemma_cleared_stamp_is_stale(now_ms: u64, timeout_ms: u64)
    requires
        now_ms >= timeout_ms,
    ensures
        !stamp_suppresses(now_ms, 0, timeout_ms),
{
}

/// A stamp written now suppresses for every positive timeout, and stops
/// suppressing once the timeout has elapsed.
pub proof fn lemma_fresh_stamp_window(stamp: u64, now_ms: u64, timeout_ms: u64)
    ensures
        timeout_ms > 0 ==> stamp_suppresses(stamp, stamp, timeout_ms),
        now_ms >= stamp + timeout_ms ==> !stamp_suppresses(now_ms, stamp, timeout_ms),
{
}

/// What the suppression stamp writer writes, the reader reads back: the
/// text of a stamp taken at `now_ms` parses to `now_ms`, so it suppresses
/// exactly the runs less than the timeout after it.
pub proof fn lemma_stamp_round_trip(now_ms: u64, later_ms: u64, timeout_ms: u64)
    ensures
        parse_in_range(trim(nat_digits(now_ms as nat)), false, 0, u64::MAX as int) == Some(
            now_ms as int,
        ),
        stamp_suppresses(later_ms, now_ms, timeout_ms) == (if later_ms >= now_ms {
            later_ms - now_ms
        } else {
            0
        } < timeout_ms),
{
    lemma_decimal_round_trip(now_ms as nat, false, 0, u64::MAX as int);
}

} // verus!
