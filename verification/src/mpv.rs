//! The mpv IPC protocol as the workflow commands speak it: JSON command
//! payloads, the socket candidates and their validation, the length cap on
//! CLI-supplied tokens, the reading of a `get_property` reply, and the
//! order in which (socket, attempt) pairs are tried.
use vstd::prelude::*;

use crate::actions::{str_views, string_views};
use crate::error::MediaControlError;
use crate::hyprland::join_spec;
use crate::paths::{contains_parent_dir, has_parent_dir, is_absolute, path_is_absolute};
use crate::text::{
    debug_quoted, debug_string, decimal, nat_digits, push_decimal, push_nat_digits, push_str,
    str_chars, str_is, string_from_chars, string_of,
};

verus! {

// ---------------------------------------------------------------------------
// JSON payloads
// ---------------------------------------------------------------------------
/// A lowercase hexadecimal digit.
pub open spec fn hex_digit(d: int) -> char {
    if d < 10 {
        (48 + d) as char
    } else {
        (87 + d) as char
    }
}

/// How `serde_json` writes one character inside a string literal: a
/// backslash before `"` and before `\`; backspace, tab, line feed, form feed and
/// carriage return as `\b`, `\t`, `\n`, `\f`, `\r`; every other control
/// character below U+0020 as `\u00` and two lowercase hex digits; anything
/// else as it is.
pub open spec fn json_char(c: char) -> Seq<char> {
    if c == '"' {
        seq!['\\', '"']
    } else if c == '\\' {
        seq!['\\', '\\']
    } else if c == '\u{8}' {
        seq!['\\', 'b']
    } else if c == '\t' {
        seq!['\\', 't']
    } else if c == '\n' {
        seq!['\\', 'n']
    } else if c == '\u{c}' {
        seq!['\\', 'f']
    } else if c == '\r' {
        seq!['\\', 'r']
    } else if (c as int) < 32 {
        seq!['\\', 'u', '0', '0', hex_digit(c as int / 16), hex_digit(c as int % 16)]
    } else {
        seq![c]
    }
}

/// The escaped contents of a JSON string literal for `s`.
pub open spec fn json_escaped(s: Seq<char>) -> Seq<char>
    decreases s.len(),
{
    if s.len() == 0 {
        Seq::empty()
    } else {
        json_escaped(s.drop_last()) + json_char(s.last())
    }
}

/// The JSON string literal `serde_json` writes for `s`: the escaped
/// characters between double quotes.
pub open spec fn json_string(s: Seq<char>) -> Seq<char> {
    seq!['"'] + json_escaped(s) + seq!['"']
}

/// Serialises `s` with `serde_json::to_string`: the characters of `s`
/// escaped as [`json_char`] says, between double quotes (serde_json's
/// `format_escaped_str` with its `ESCAPE` table). Serialising a `str`
/// cannot fail (the crate fails only for maps with non-string keys or a
/// failing `Serialize` impl), so the error arm is unreachable.
#[verifier::external_body]
fn json_str(s: &str) -> (r: String)
    ensures
        r@ == json_string(s@),
{
    serde_json::to_string(s).unwrap_or_default()
}

/// A compact JSON object `{"command":[e0,e1,...]}` from already-encoded
/// elements.
pub open spec fn command_json(elems: Seq<Seq<char>>) -> Seq<char> {
    "{\"command\":["@ + join_spec(elems, ","@) + "]}"@
}

/// The encoded string elements.
pub open spec fn json_strings(parts: Seq<Seq<char>>) -> Seq<Seq<char>> {
    parts.map_values(|p: Seq<char>| json_string(p))
}

/// The command object for already-encoded `elems`.
pub fn command_from_elems(elems: &Vec<String>) -> (r: String)
    ensures
        r@ == command_json(string_views(elems@)),
{
    let ghost all = string_views(elems@);
    let mut out: Vec<char> = Vec::new();
    push_str(&mut out, "{\"command\":[");
    let ghost head = out@;
    let mut i: usize = 0;
    while i < elems.len()
        invariant
            i <= elems@.len(),
            all == string_views(elems@),
            head == "{\"command\":["@,
            out@ == head + join_spec(all.take(i as int), ","@),
        decreases elems.len() - i,
    {
        if i > 0 {
            push_str(&mut out, ",");
        }
        push_str(&mut out, elems[i].as_str());
        proof {
            let t = all.take(i + 1);
            assert(t.drop_last() =~= all.take(i as int));
            assert(t.last() == elems@[i as int]@);
            if i == 0 {
                assert(t.len() == 1);
                assert(all.take(0) =~= Seq::<Seq<char>>::empty());
                assert(out@ =~= head + t[0]);
            } else {
                assert(out@ =~= head + (join_spec(t.drop_last(), ","@) + ","@ + t.last()));
            }
        }
        i = i + 1;
    }
    assert(all.take(i as int) =~= all);
    push_str(&mut out, "]}");
    string_from_chars(&out)
}

/// Appends the encoded string elements of `parts` to `elems`.
pub fn push_json_strings(elems: &mut Vec<String>, parts: &[&str])
    ensures
        string_views(final(elems)@) == string_views(old(elems)@) + parts@.map_values(
            |p: &str| json_string(p@),
        ),
{
    let ghost start = string_views(elems@);
    let mut i: usize = 0;
    while i < parts.len()
        invariant
            i <= parts@.len(),
            string_views(elems@) == start + parts@.take(i as int).map_values(
                |p: &str| json_string(p@),
            ),
        decreases parts.len() - i,
    {
        let ghost prev = elems@;
        elems.push(json_str(parts[i]));
        proof {
            assert(string_views(elems@) =~= string_views(prev).push(json_string(parts@[i as int]@)));
            assert(parts@.take(i + 1).map_values(|p: &str| json_string(p@)) =~= parts@.take(
                i as int,
            ).map_values(|p: &str| json_string(p@)).push(json_string(parts@[i as int]@)));
            assert(string_views(elems@) =~= start + parts@.take(i + 1).map_values(
                |p: &str| json_string(p@),
            ));
        }
        i = i + 1;
    }
    assert(parts@.take(i as int) =~= parts@);
}

/// The encoded elements of a `script-message` with arguments.
pub open spec fn script_message_elems(message: Seq<char>, args: Seq<Seq<char>>) -> Seq<Seq<char>> {
    seq![json_string("script-message"@), json_string(message)] + json_strings(args)
}

/// `{"command":["script-message",<message>,<args>...]}`.
pub fn script_message_payload(message: &str, args: &[&str]) -> (r: String)
    ensures
        r@ == command_json(script_message_elems(message@, str_views(args@))),
{
    let mut elems: Vec<String> = Vec::new();
    push_json_strings(&mut elems, &["script-message", message]);
    push_json_strings(&mut elems, args);
    proof {
        let two: Seq<&str> = seq!["script-message", message];
        assert(two.map_values(|p: &str| json_string(p@)) =~= seq![
            json_string("script-message"@),
            json_string(message@),
        ]);
        assert(args@.map_values(|p: &str| json_string(p@)) =~= json_strings(str_views(args@)));
        assert(string_views(elems@) =~= script_message_elems(message@, str_views(args@)));
    }
    command_from_elems(&elems)
}

/// `{"command":["get_property",<property>]}`.
pub fn get_property_payload(property: &str) -> (r: String)
    ensures
        r@ == command_json(seq![json_string("get_property"@), json_string(property@)]),
{
    let mut elems: Vec<String> = Vec::new();
    push_json_strings(&mut elems, &["get_property", property]);
    proof {
        let two: Seq<&str> = seq!["get_property", property];
        assert(two.map_values(|p: &str| json_string(p@)) =~= seq![
            json_string("get_property"@),
            json_string(property@),
        ]);
        assert(string_views(elems@) =~= seq![json_string("get_property"@), json_string(property@)]);
    }
    command_from_elems(&elems)
}

/// The JSON number element for `n`.
pub fn json_int(n: i64) -> (r: String)
    ensures
        r@ == decimal(n as int),
{
    let mut out: Vec<char> = Vec::new();
    push_decimal(&mut out, n);
    assert(out@ =~= Seq::<char>::empty() + decimal(n as int));
    string_from_chars(&out)
}

/// The JSON string element for `s`.
pub fn json_text(s: &str) -> (r: String)
    ensures
        r@ == json_string(s@),
{
    json_str(s)
}

// ---------------------------------------------------------------------------
// Socket candidates
// ---------------------------------------------------------------------------
/// The jellyfin-mpv-shim socket, tried after `MPV_IPC_SOCKET`.
pub open spec fn default_socket() -> Seq<char> {
    "/tmp/mpv-shim"@
}

/// The legacy socket, tried last.
pub open spec fn fallback_socket() -> Seq<char> {
    "/tmp/mpvctl-jshim"@
}

/// Why an `MPV_IPC_SOCKET` value is refused, if it is.
pub open spec fn socket_path_problem(raw: Seq<char>) -> Option<Seq<char>> {
    if raw.len() == 0 {
        Some("MPV_IPC_SOCKET must not be empty"@)
    } else if !is_absolute(raw) {
        Some("MPV_IPC_SOCKET must be an absolute path (got "@ + debug_quoted(raw) + ")"@)
    } else if has_parent_dir(raw) {
        Some(
            "MPV_IPC_SOCKET must not contain `..` components (got "@ + debug_quoted(raw) + ")"@,
        )
    } else {
        None
    }
}

/// Validate an `MPV_IPC_SOCKET` candidate: non-empty, absolute, and free of
/// `..` components (existence is checked later, when connecting).
pub fn validate_mpv_socket_path(raw: &str) -> (r: Result<String, MediaControlError>)
    ensures
        match socket_path_problem(raw@) {
            None => r is Ok && r->Ok_0@ == raw@,
            Some(m) => r matches Err(MediaControlError::InvalidArgument(msg)) && msg@ == m,
        },
{
    let p = str_chars(raw);
    if p.len() == 0 {
        return Err(
            MediaControlError::invalid_argument(string_of("MPV_IPC_SOCKET must not be empty")),
        );
    }
    if !path_is_absolute(p.as_slice()) {
        let mut out: Vec<char> = Vec::new();
        push_str(&mut out, "MPV_IPC_SOCKET must be an absolute path (got ");
        push_str(&mut out, debug_string(raw).as_str());
        push_str(&mut out, ")");
        return Err(MediaControlError::invalid_argument(string_from_chars(&out)));
    }
    if contains_parent_dir(p.as_slice()) {
        let mut out: Vec<char> = Vec::new();
        push_str(&mut out, "MPV_IPC_SOCKET must not contain `..` components (got ");
        push_str(&mut out, debug_string(raw).as_str());
        push_str(&mut out, ")");
        return Err(MediaControlError::invalid_argument(string_from_chars(&out)));
    }
    Ok(string_of(raw))
}

/// The socket candidates in order: a valid `MPV_IPC_SOCKET` (an invalid
/// one is dropped), then the shim's socket, then the legacy one.
pub open spec fn socket_candidates(env: Option<Seq<char>>) -> Seq<Seq<char>> {
    let head = match env {
        Some(e) => if socket_path_problem(e) is None {
            seq![e]
        } else {
            Seq::empty()
        },
        None => Seq::empty(),
    };
    head + seq![default_socket(), fallback_socket()]
}

/// The ordered list of mpv sockets to try, given `MPV_IPC_SOCKET`.
pub fn mpv_socket_paths(env: Option<&str>) -> (r: Vec<String>)
    ensures
        string_views(r@) == socket_candidates(
            match env {
                Some(e) => Some(e@),
                None => None,
            },
        ),
{
    let mut paths: Vec<String> = Vec::new();
    if let Some(e) = env {
        match validate_mpv_socket_path(e) {
            Ok(p) => {
                paths.push(p);
            },
            Err(_) => {},
        }
    }
    paths.push(string_of("/tmp/mpv-shim"));
    paths.push(string_of("/tmp/mpvctl-jshim"));
    assert(string_views(paths@) =~= socket_candidates(
        match env {
            Some(e) => Some(e@),
            None => None,
        },
    ));
    paths
}

// ---------------------------------------------------------------------------
// CLI token length
// ---------------------------------------------------------------------------
/// The message for an empty token.
pub open spec fn empty_token_message(label: Seq<char>) -> Seq<char> {
    label + " must not be empty"@
}

/// The message for a token over the cap.
pub open spec fn long_token_message(label: Seq<char>, len: nat, max_len: nat) -> Seq<char> {
    label + " too long: "@ + nat_digits(len) + " bytes (max "@ + nat_digits(max_len) + ")"@
}

/// Validate that a CLI-supplied IPC token is non-empty and at most
/// `max_len` bytes (its UTF-8 length), before any connection is tried.
pub fn validate_ipc_token_len(label: &str, value: &str, max_len: usize) -> (r: Result<
    (),
    MediaControlError,
>)
    ensures
        value@.len() == 0 ==> (r matches Err(MediaControlError::InvalidArgument(m)) && m@
            == empty_token_message(label@)),
        value@.len() > 0 && value.len() > max_len ==> (r matches Err(
            MediaControlError::InvalidArgument(m),
        ) && m@ == long_token_message(label@, value.len() as nat, max_len as nat)),
        value@.len() > 0 && value.len() <= max_len ==> r is Ok,
{
    if value.is_empty() {
        let mut out: Vec<char> = Vec::new();
        push_str(&mut out, label);
        push_str(&mut out, " must not be empty");
        return Err(MediaControlError::invalid_argument(string_from_chars(&out)));
    }
    let n = value.len();
    if n > max_len {
        let mut out: Vec<char> = Vec::new();
        push_str(&mut out, label);
        push_str(&mut out, " too long: ");
        push_nat_digits(&mut out, n as u64);
        push_str(&mut out, " bytes (max ");
        push_nat_digits(&mut out, max_len as u64);
        push_str(&mut out, ")");
        return Err(MediaControlError::invalid_argument(string_from_chars(&out)));
    }
    Ok(())
}

// ---------------------------------------------------------------------------
// get_property replies
// ---------------------------------------------------------------------------
/// Whether a line read back from mpv is an unsolicited event to skip
/// while waiting for the reply: it has an `event` member and no `error`
/// member. (Lines that are not JSON are skipped too.)
pub fn reply_line_is_event(has_event: bool, has_error: bool) -> (r: bool)
    ensures
        r == (has_event && !has_error),
{
    has_event && !has_error
}

/// What `serde_json::from_str::<serde_json::Value>` makes of a line read
/// back from mpv: `None` when the line is not JSON, otherwise whether the
/// value has an `event` member and whether it has an `error` member (as
/// `Value::get` reports them; a value that is not an object has neither).
pub uninterp spec fn json_line_shape(line: Seq<char>) -> Option<(bool, bool)>;

/// Parses `line` with `serde_json::from_str::<serde_json::Value>` and
/// reports, through `Value::get`, whether the `event` and `error` members
/// are present; `None` when the parse fails. The result is named by
/// [`json_line_shape`].
#[verifier::external_body]
fn parse_reply_line(line: &str) -> (r: Option<(bool, bool)>)
    ensures
        r == json_line_shape(line@),
{
    match serde_json::from_str::<serde_json::Value>(line) {
        Ok(v) => Some((v.get("event").is_some(), v.get("error").is_some())),
        Err(_) => None,
    }
}

/// What to do with one line read while waiting for mpv's reply.
#[derive(Debug, Clone, Copy, PartialEq, Eq, Structural)]
pub enum LineVerdict {
    /// Not JSON: skip it.
    NotJson,
    /// An unsolicited event: skip it.
    Event,
    /// The reply to the request.
    Reply,
}

/// The verdict for a line of the given shape (see [`json_line_shape`]).
pub open spec fn line_verdict_spec(shape: Option<(bool, bool)>) -> LineVerdict {
    match shape {
        None => LineVerdict::NotJson,
        Some((has_event, has_error)) => if has_event && !has_error {
            LineVerdict::Event
        } else {
            LineVerdict::Reply
        },
    }
}

/// The verdict for a line whose JSON shape is `shape`.
pub fn line_verdict(shape: Option<(bool, bool)>) -> (r: LineVerdict)
    ensures
        r == line_verdict_spec(shape),
{
    match shape {
        None => LineVerdict::NotJson,
        Some((has_event, has_error)) => if reply_line_is_event(has_event, has_error) {
            LineVerdict::Event
        } else {
            LineVerdict::Reply
        },
    }
}

/// The verdict for one line read back from mpv: lines that are not JSON
/// and unsolicited events are skipped, the first other JSON value is the
/// reply.
pub fn reply_line_verdict(line: &str) -> (r: LineVerdict)
    ensures
        r == line_verdict_spec(json_line_shape(line@)),
{
    line_verdict(parse_reply_line(line))
}

/// The message for a `get_property` reply whose `error` is not `success`.
pub open spec fn property_error_message(property: Seq<char>, error: Option<Seq<char>>) -> Seq<char> {
    "mpv error for "@ + debug_quoted(property) + ": "@ + match error {
        Some(e) => e,
        None => "unknown"@,
    }
}

/// Read a `get_property` reply by its `error` field (`None` when absent or
/// not a string): `success` means the `data` field holds the value;
/// anything else is a connection-failed error naming the property.
pub fn property_reply_outcome(property: &str, error: Option<&str>) -> (r: Result<
    (),
    MediaControlError,
>)
    ensures
        match error {
            Some(e) => e@ == "success"@,
            None => false,
        } ==> r is Ok,
        !match error {
            Some(e) => e@ == "success"@,
            None => false,
        } ==> (r matches Err(MediaControlError::MpvIpc { kind, message }) && kind
            == crate::error::MpvIpcErrorKind::ConnectionFailed && message@
            == property_error_message(
            property@,
            match error {
                Some(e) => Some(e@),
                None => None,
            },
        )),
{
    if let Some(e) = error {
        if str_is(e, "success") {
            return Ok(());
        }
    }
    let mut out: Vec<char> = Vec::new();
    push_str(&mut out, "mpv error for ");
    push_str(&mut out, debug_string(property).as_str());
    push_str(&mut out, ": ");
    match error {
        Some(e) => push_str(&mut out, e),
        None => push_str(&mut out, "unknown"),
    }
    Err(MediaControlError::mpv_connection_failed(string_from_chars(&out)))
}

// ---------------------------------------------------------------------------
// Attempt order
// ---------------------------------------------------------------------------
/// One try: the candidate's index and the attempt number on it.
#[derive(Copy, Clone, Debug, PartialEq, Eq, Structural)]
pub struct Attempt {
    pub path: usize,
    pub attempt: u8,
}

/// The position of a try in the whole order: every retry on a socket comes
/// before the first try of the next one.
pub open spec fn attempt_rank(a: Attempt, retries: u8) -> int {
    a.path * (retries + 1) + a.attempt
}

/// The first try, if there is any socket.
pub fn first_attempt(n_paths: usize) -> (r: Option<Attempt>)
    ensures
        n_paths == 0 <==> r is None,
        r is Some ==> r->0 == (Attempt { path: 0, attempt: 0 }),
{
    if n_paths == 0 {
        None
    } else {
        Some(Attempt { path: 0, attempt: 0 })
    }
}

/// The try after `cur`: the next attempt on the same socket while
/// `retries` allows, else the first attempt on the next socket, else none.
pub fn next_attempt(n_paths: usize, retries: u8, cur: Attempt) -> (r: Option<Attempt>)
    requires
        cur.path < n_paths,
        cur.attempt <= retries,
    ensures
        match r {
            Some(n) => n.path < n_paths && n.attempt <= retries && attempt_rank(n, retries)
                == attempt_rank(cur, retries) + 1,
            None => attempt_rank(cur, retries) + 1 == n_paths * (retries + 1),
        },
{
    if cur.attempt < retries {
        Some(Attempt { path: cur.path, attempt: cur.attempt + 1 })
    } else if cur.path + 1 < n_paths {
        proof {
            assert((cur.path + 1) * (retries + 1) == cur.path * (retries + 1) + retries + 1)
                by (nonlinear_arith);
        }
        Some(Attempt { path: cur.path + 1, attempt: 0 })
    } else {
        proof {
            assert((cur.path + 1) * (retries + 1) == cur.path * (retries + 1) + retries + 1)
                by (nonlinear_arith);
        }
        None
    }
}

/// Whether the retry delay comes before a try: before every retry on the
/// same socket, never before the first try on a socket.
pub fn sleeps_before(a: Attempt) -> (r: bool)
    ensures
        r == (a.attempt > 0),
{
    a.attempt > 0
}

proof fn lemma_rank_bounds(p: int, t: int, r: int)
    requires
        0 <= p,
        0 <= t <= r,
    ensures
        p * (r + 1) <= p * (r + 1) + t < (p + 1) * (r + 1),
{
    assert((p + 1) * (r + 1) == p * (r + 1) + r + 1) by (nonlinear_arith);
}

proof fn lemma_mul_le(a: int, b: int, c: int)
    requires
        0 <= a <= b,
        0 <= c,
    ensures
        a * c <= b * c,
{
    assert(a * c <= b * c) by (nonlinear_arith)
        requires
            0 <= a <= b,
            0 <= c,
    ;
}

/// Every (socket, attempt) pair is tried exactly once: the positions of
/// the valid tries are distinct and all lie below the total number of
/// tries, sockets times attempts per socket.
pub proof fn lemma_attempt_order_is_exhaustive(a: Attempt, b: Attempt, n_paths: usize, retries: u8)
    requires
        a.path < n_paths,
        a.attempt <= retries,
        b.path < n_paths,
        b.attempt <= retries,
    ensures
        0 <= attempt_rank(a, retries) < n_paths * (retries + 1),
        attempt_rank(a, retries) == attempt_rank(b, retries) ==> a == b,
{
    let r = retries as int;
    lemma_rank_bounds(a.path as int, a.attempt as int, r);
    lemma_rank_bounds(b.path as int, b.attempt as int, r);
    lemma_mul_le(a.path + 1, n_paths as int, r + 1);
    if a.path < b.path {
        lemma_mul_le(a.path + 1, b.path as int, r + 1);
    } else if b.path < a.path {
        lemma_mul_le(b.path + 1, a.path as int, r + 1);
    }
}

} // verus!
