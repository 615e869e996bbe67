//! Hyprland IPC data model and the pure parts of the IPC client: address
//! and path-component validation, command framing, reply interpretation and
//! live-instance selection. The socket I/O itself happens outside the
//! library; it hands the raw replies to the functions here.
use vstd::prelude::*;

use crate::paths::{contains_parent_dir, has_parent_dir, is_absolute, join_all, join_path, join_seq, path_is_absolute};
use crate::text::{
    copy_chars, debug_quoted, debug_string, push_chars, push_str, str_chars, string_from_chars,
    string_of, trim, trimmed,
};

verus! {

/// Workspace data embedded in `Client` and `Monitor`.
#[derive(Debug, PartialEq, Eq)]
pub struct Workspace {
    pub id: i32,
    pub name: String,
}

impl Clone for Workspace {
    fn clone(&self) -> (r: Self)
        ensures
            r == *self,
    {
        Workspace { id: self.id, name: self.name.clone() }
    }
}

/// Window/client data from Hyprland's `j/clients` command.
#[derive(Debug)]
pub struct Client {
    /// Window address; empty when Hyprland reported a malformed one.
    pub address: String,
    pub mapped: bool,
    pub hidden: bool,
    pub at: [i32; 2],
    pub size: [i32; 2],
    pub workspace: Workspace,
    pub floating: bool,
    pub pinned: bool,
    /// Fullscreen state: 0 = none, 1 = maximized, 2 = fullscreen.
    pub fullscreen: u8,
    pub monitor: i32,
    pub pid: i32,
    pub class: String,
    pub title: String,
    pub focus_history_id: i32,
}

impl Clone for Client {
    fn clone(&self) -> (r: Self)
        ensures
            r == *self,
    {
        Client {
            address: self.address.clone(),
            mapped: self.mapped,
            hidden: self.hidden,
            at: self.at,
            size: self.size,
            workspace: self.workspace.clone(),
            floating: self.floating,
            pinned: self.pinned,
            fullscreen: self.fullscreen,
            monitor: self.monitor,
            pid: self.pid,
            class: self.class.clone(),
            title: self.title.clone(),
            focus_history_id: self.focus_history_id,
        }
    }
}

impl Client {
    /// The canonical "user-visible window" predicate.
    pub open spec fn visible(&self) -> bool {
        self.mapped && !self.hidden
    }

    /// Whether this is the currently focused window.
    pub open spec fn focused(&self) -> bool {
        self.focus_history_id == 0
    }

    /// Whether this window has ever been focused.
    pub open spec fn ever_focused(&self) -> bool {
        self.focus_history_id >= 0
    }

    /// True iff the client is mapped and not hidden.
    pub fn is_visible(&self) -> (r: bool)
        ensures
            r == self.visible(),
    {
        self.mapped && !self.hidden
    }

    /// True iff this client is the currently-focused window
    /// (`focus_history_id == 0`).
    pub fn is_focused(&self) -> (r: bool)
        ensures
            r == self.focused(),
    {
        self.focus_history_id == 0
    }

    /// True iff this client has ever been focused (history id non-negative;
    /// Hyprland uses `-1` for never-focused windows).
    pub fn has_focus_history(&self) -> (r: bool)
        ensures
            r == self.ever_focused(),
    {
        self.focus_history_id >= 0
    }
}

/// Monitor data from Hyprland's `j/monitors` command.
#[derive(Debug, Clone)]
pub struct Monitor {
    pub id: i32,
    pub name: String,
    pub width: i32,
    pub height: i32,
    pub x: i32,
    pub y: i32,
    pub focused: bool,
    pub active_workspace: Workspace,
}

/// Client for Hyprland IPC; holds the path of the command socket.
#[derive(Debug, Clone)]
pub struct HyprlandClient {
    socket_path: String,
}

impl HyprlandClient {
    /// The socket path this client talks to.
    pub closed spec fn spec_socket_path(&self) -> Seq<char> {
        self.socket_path@
    }

    /// Create a client with a custom socket path.
    pub fn with_socket_path(socket_path: String) -> (c: Self)
        ensures
            c.spec_socket_path() == socket_path@,
    {
        HyprlandClient { socket_path }
    }

    /// The socket path this client talks to.
    pub fn socket_path(&self) -> (p: &str)
        ensures
            p@ == self.spec_socket_path(),
    {
        self.socket_path.as_str()
    }
}

/// `std::io::Error`, carried opaquely inside transport errors.
#[verifier::external_type_specification]
#[verifier::external_body]
pub struct ExIoError(std::io::Error);

/// `serde_json::Error`, carried opaquely inside parse errors.
#[verifier::external_type_specification]
#[verifier::external_body]
pub struct ExJsonError(serde_json::Error);

/// Errors that can occur during Hyprland IPC operations.
#[derive(Debug)]
pub enum HyprlandError {
    /// A required environment variable is unset.
    MissingEnvVar(&'static str),
    /// An environment variable is set but failed validation.
    InvalidEnvVar(&'static str),
    ConnectionFailed(std::io::Error),
    WriteFailed(std::io::Error),
    ReadFailed(std::io::Error),
    JsonParseFailed(serde_json::Error),
    /// Hyprland answered, but not with a success reply.
    CommandFailed(String),
    /// No reachable Hyprland instance was found.
    NoLiveInstance,
}

// ---------------------------------------------------------------------------
// Address validation
// ---------------------------------------------------------------------------
/// An ASCII hexadecimal digit.
pub open spec fn is_hex_digit(c: char) -> bool {
    ('0' <= c && c <= '9') || ('a' <= c && c <= 'f') || ('A' <= c && c <= 'F')
}

/// The canonical Hyprland window-address shape `^0x[0-9A-Fa-f]{1,32}$`:
/// `0x` followed by one to thirty-two hex digits and nothing else.
pub open spec fn address_shape(s: Seq<char>) -> bool {
    &&& 3 <= s.len() <= 34
    &&& s[0] == '0'
    &&& s[1] == 'x'
    &&& forall|i: int| 2 <= i < s.len() ==> is_hex_digit(#[trigger] s[i])
}

/// Matches `addr` against `^0x[0-9A-Fa-f]{1,32}$` with
/// `regex::Regex::is_match`. Per the regex crate's syntax documentation,
/// `^`/`$` anchor the whole haystack (no multi-line mode), `0x` is literal
/// and `[0-9A-Fa-f]{1,32}` is one to thirty-two ASCII hex digits; the
/// contract states exactly that shape.
#[verifier::external_body]
fn address_regex_is_match(addr: &str) -> (r: bool)
    ensures
        r == address_shape(addr@),
{
    regex::Regex::new(r"^0x[0-9A-Fa-f]{1,32}$").map(|re| re.is_match(addr)).unwrap_or(false)
}

/// Returns `true` iff `addr` has the canonical Hyprland address shape.
pub fn is_valid_address(addr: &str) -> (r: bool)
    ensures
        r == address_shape(addr@),
{
    address_regex_is_match(addr)
}

/// The address a client record keeps: the reported one when it has the
/// canonical shape, otherwise the empty string (a no-op target, so an
/// injected `;dispatch ...` payload never reaches an action body).
pub fn sanitize_address(raw: String) -> (r: String)
    ensures
        r@ == if address_shape(raw@) {
            raw@
        } else {
            Seq::<char>::empty()
        },
{
    if is_valid_address(raw.as_str()) {
        raw
    } else {
        String::new()
    }
}

// ---------------------------------------------------------------------------
// Path-component validation
// ---------------------------------------------------------------------------
/// A single, non-empty path component free of separators, NUL bytes and
/// the bare `.` / `..` tokens.
pub open spec fn safe_component(s: Seq<char>) -> bool {
    &&& s.len() > 0
    &&& !crate::text::has_char(s, '/')
    &&& !crate::text::has_char(s, '\\')
    &&& !crate::text::has_char(s, '\0')
    &&& s != seq!['.', '.']
    &&& s != seq!['.']
}

/// A safe instance signature: a safe component that does not start with `.`.
pub open spec fn safe_his(s: Seq<char>) -> bool {
    safe_component(s) && s[0] != '.'
}

/// Reject empty / multi-component / traversal-laden path components.
pub fn is_safe_component(s: &str) -> (r: bool)
    ensures
        r == safe_component(s@),
{
    let c = str_chars(s);
    let n = c.len();
    let dotdot = n == 2 && c[0] == '.' && c[1] == '.';
    let dot = n == 1 && c[0] == '.';
    proof {
        if n == 2 && !dotdot {
            assert(c@ != seq!['.', '.']) by {
                if c@ == seq!['.', '.'] {
                    assert(c@[0] == '.' && c@[1] == '.');
                }
            }
        }
        if n == 1 && !dot {
            assert(c@ != seq!['.']) by {
                if c@ == seq!['.'] {
                    assert(c@[0] == '.');
                }
            }
        }
        if dotdot {
            assert(c@ =~= seq!['.', '.']);
        }
        if dot {
            assert(c@ =~= seq!['.']);
        }
    }
    n > 0 && !crate::text::contains_char(c.as_slice(), '/') && !crate::text::contains_char(
        c.as_slice(),
        '\\',
    ) && !crate::text::contains_char(c.as_slice(), '\0') && !dotdot && !dot
}

/// Validate an instance-signature string: a safe component that does not
/// start with `.`.
pub fn is_safe_his(his: &str) -> (r: bool)
    ensures
        r == safe_his(his@),
{
    let ok = is_safe_component(his);
    if !ok {
        return false;
    }
    let c = str_chars(his);
    c[0] != '.'
}

// ---------------------------------------------------------------------------
// Reply interpretation
// ---------------------------------------------------------------------------
/// Position of the first `\n` in `s`, or `s.len()` when there is none.
pub open spec fn nl_pos(s: Seq<char>) -> int
    decreases s.len(),
{
    if s.len() == 0 {
        0
    } else if s[0] == '\n' {
        0
    } else {
        1 + nl_pos(s.drop_first())
    }
}

/// `l` without one trailing `\r`.
pub open spec fn strip_cr(l: Seq<char>) -> Seq<char> {
    if l.len() > 0 && l.last() == '\r' {
        l.drop_last()
    } else {
        l
    }
}

/// The lines that `str::lines` yields: pieces split after each `\n`, with
/// the `\n` (and a `\r` directly before it) removed; a final piece without
/// a terminator is kept as is, and an empty string has no lines.
pub open spec fn lines(s: Seq<char>) -> Seq<Seq<char>>
    decreases s.len(),
{
    if s.len() == 0 {
        seq![]
    } else {
        let k = nl_pos(s);
        if k < 0 || k >= s.len() {
            seq![s]
        } else {
            seq![strip_cr(s.subrange(0, k))] + lines(s.subrange(k + 1, s.len() as int))
        }
    }
}

proof fn lemma_nl_pos_bounds(s: Seq<char>)
    ensures
        0 <= nl_pos(s) <= s.len(),
        nl_pos(s) < s.len() ==> s[nl_pos(s)] == '\n',
        forall|i: int| 0 <= i < nl_pos(s) ==> s[i] != '\n',
    decreases s.len(),
{
    if s.len() > 0 && s[0] != '\n' {
        lemma_nl_pos_bounds(s.drop_first());
        assert forall|i: int| 0 <= i < nl_pos(s) implies s[i] != '\n' by {
            if i > 0 {
                assert(s[i] == s.drop_first()[i - 1]);
            }
        }
    }
}

proof fn lemma_nl_pos_of(s: Seq<char>, k: int)
    requires
        0 <= k <= s.len(),
        forall|i: int| 0 <= i < k ==> s[i] != '\n',
        k == s.len() || s[k] == '\n',
    ensures
        nl_pos(s) == k,
    decreases k,
{
    if k > 0 {
        assert forall|i: int| 0 <= i < k - 1 implies s.drop_first()[i] != '\n' by {
            assert(s.drop_first()[i] == s[i + 1]);
        }
        lemma_nl_pos_of(s.drop_first(), k - 1);
    }
}

/// The literal reply `ok`.
pub open spec fn ok_line() -> Seq<char> {
    seq!['o', 'k']
}

/// Every one of `ls` is exactly `ok`.
pub open spec fn all_ok(ls: Seq<Seq<char>>) -> bool {
    forall|i: int| 0 <= i < ls.len() ==> #[trigger] ls[i] == ok_line()
}

/// A success reply: empty, or every line exactly `ok` (one per command of a
/// batch).
pub open spec fn success_reply(r: Seq<char>) -> bool {
    r.len() == 0 || all_ok(lines(r))
}

fn segment_is_ok(s: &[char], a: usize, b: usize) -> (r: bool)
    requires
        a <= b <= s@.len(),
    ensures
        r == (s@.subrange(a as int, b as int) == ok_line()),
{
    let r = b - a == 2 && s[a] == 'o' && s[a + 1] == 'k';
    proof {
        let seg = s@.subrange(a as int, b as int);
        assert(seg.len() == b - a);
        if b - a == 2 {
            assert(seg[0] == s@[a as int] && seg[1] == s@[a + 1]);
        }
        if r {
            assert(seg =~= ok_line());
        } else if seg == ok_line() {
            assert(seg[0] == 'o' && seg[1] == 'k');
        }
    }
    r
}

fn lines_ok_from(s: &[char], start: usize) -> (r: bool)
    requires
        start <= s@.len(),
    ensures
        r == all_ok(lines(s@.subrange(start as int, s@.len() as int))),
    decreases s@.len() - start,
{
    let n = s.len();
    let ghost t = s@.subrange(start as int, n as int);
    if start == n {
        assert(t.len() == 0);
        return true;
    }
    let mut k: usize = start;
    while k < n && s[k] != '\n'
        invariant
            start <= k <= n,
            n == s@.len(),
            forall|i: int| start <= i < k ==> s@[i] != '\n',
        decreases n - k,
    {
        k = k + 1;
    }
    proof {
        assert forall|i: int| 0 <= i < k - start implies t[i] != '\n' by {
            assert(t[i] == s@[start + i]);
        }
        lemma_nl_pos_of(t, k - start);
        lemma_nl_pos_bounds(t);
    }
    if k == n {
        assert(lines(t) == seq![t]);
        let ok = segment_is_ok(s, start, n);
        proof {
            if ok {
                assert(lines(t)[0] == ok_line());
            } else {
                assert(lines(t)[0] != ok_line());
            }
        }
        return ok;
    }
    let end: usize = if k > start && s[k - 1] == '\r' { k - 1 } else { k };
    let ok = segment_is_ok(s, start, end);
    let ghost head = strip_cr(t.subrange(0, k - start));
    proof {
        assert(head =~= s@.subrange(start as int, end as int));
        assert(t.subrange(k - start + 1, t.len() as int) =~= s@.subrange(k + 1, n as int));
    }
    if !ok {
        assert(lines(t)[0] == head);
        return false;
    }
    let rest = lines_ok_from(s, k + 1);
    proof {
        let tail = lines(s@.subrange(k + 1, n as int));
        assert(lines(t) == seq![head] + tail);
        if rest {
            assert forall|i: int| 0 <= i < lines(t).len() implies #[trigger] lines(t)[i]
                == ok_line() by {
                if i > 0 {
                    assert(lines(t)[i] == tail[i - 1]);
                }
            }
        } else {
            let j = choose|j: int| 0 <= j < tail.len() && tail[j] != ok_line();
            assert(lines(t)[j + 1] == tail[j]);
        }
    }
    rest
}

/// Whether a command reply signals success: empty, or every line is
/// exactly `ok`.
pub fn reply_is_success(response: &str) -> (r: bool)
    ensures
        r == success_reply(response@),
{
    let s = str_chars(response);
    if s.len() == 0 {
        return true;
    }
    let r = lines_ok_from(s.as_slice(), 0);
    assert(s@.subrange(0, s@.len() as int) =~= s@);
    r
}

impl HyprlandClient {
    /// Check if a Hyprland IPC response indicates success: an empty body or
    /// a body whose every line is exactly `ok`.
    pub fn is_success(response: &str) -> (r: bool)
        ensures
            r == success_reply(response@),
    {
        reply_is_success(response)
    }

    /// The wire text of a dispatch: `dispatch <action>`.
    pub fn dispatch_command(action: &str) -> (cmd: String)
        ensures
            cmd@ == dispatch_prefix() + action@,
    {
        let mut out: Vec<char> = Vec::new();
        push_str(&mut out, "dispatch ");
        push_str(&mut out, action);
        string_from_chars(&out)
    }

    /// The wire text of a `[[BATCH]]` request sending `commands` verbatim,
    /// joined by `; `; `None` for an empty list (nothing is sent).
    pub fn batch_command(commands: &[&str]) -> (cmd: Option<String>)
        ensures
            commands@.len() == 0 ==> cmd is None,
            commands@.len() > 0 ==> cmd is Some && cmd->0@ == batch_marker() + join_spec(
                commands@.map_values(|c: &str| c@),
                batch_separator(),
            ),
    {
        if commands.len() == 0 {
            return None;
        }
        let mut out: Vec<char> = Vec::new();
        push_str(&mut out, "[[BATCH]]");
        let body = join_prefixed(commands, "", "; ");
        push_chars(&mut out, &body);
        proof {
            reveal_strlit("");
            assert(commands@.map_values(|c: &str| ""@ + c@) =~= commands@.map_values(
                |c: &str| c@,
            ));
        }
        Some(string_from_chars(&out))
    }

    /// The wire text of a `[[BATCH]]` request dispatching each of `actions`
    /// (each prefixed with `dispatch `), joined by `; `; `None` when empty.
    pub fn dispatch_batch_command(actions: &[&str]) -> (cmd: Option<String>)
        ensures
            actions@.len() == 0 ==> cmd is None,
            actions@.len() > 0 ==> cmd is Some && cmd->0@ == batch_marker() + join_spec(
                actions@.map_values(|a: &str| dispatch_prefix() + a@),
                batch_separator(),
            ),
    {
        if actions.len() == 0 {
            return None;
        }
        let mut out: Vec<char> = Vec::new();
        push_str(&mut out, "[[BATCH]]");
        let body = join_prefixed(actions, "dispatch ", "; ");
        push_chars(&mut out, &body);
        Some(string_from_chars(&out))
    }

    /// The wire text setting a keyword: `keyword <key> <value>`.
    pub fn keyword_command(key: &str, value: &str) -> (cmd: String)
        ensures
            cmd@ == keyword_prefix() + key@ + seq![' '] + value@,
    {
        let mut out: Vec<char> = Vec::new();
        push_str(&mut out, "keyword ");
        push_str(&mut out, key);
        out.push(' ');
        push_str(&mut out, value);
        string_from_chars(&out)
    }

    /// Outcome of a command given Hyprland's reply: `Ok` iff the reply is a
    /// success reply, otherwise `CommandFailed` carrying the command and the
    /// reply for diagnosis.
    pub fn command_outcome(cmd: &str, response: &str) -> (r: Result<(), HyprlandError>)
        ensures
            r is Ok <==> success_reply(response@),
            r is Err ==> (r matches Err(HyprlandError::CommandFailed(m)) && m@
                == command_failed_text(cmd@, response@)),
    {
        if reply_is_success(response) {
            Ok(())
        } else {
            Err(HyprlandError::CommandFailed(command_failed_message(cmd, response)))
        }
    }

    /// A command is retried once exactly when its first attempt failed to
    /// connect; write, read and semantic failures are never retried.
    pub fn should_retry(err: &HyprlandError) -> (r: bool)
        ensures
            r == (err is ConnectionFailed),
    {
        match err {
            HyprlandError::ConnectionFailed(_) => true,
            _ => false,
        }
    }

    /// The error for an attempt that ran out of time (`e` describes the
    /// timeout): before the connection was made it is a connection failure,
    /// which is retried; once connected, the command may already have
    /// reached Hyprland, so it is a read failure and is not sent again.
    pub fn timeout_error(connected: bool, e: std::io::Error) -> (r: HyprlandError)
        ensures
            connected ==> r == HyprlandError::ReadFailed(e),
            !connected ==> r == HyprlandError::ConnectionFailed(e),
    {
        if connected {
            HyprlandError::ReadFailed(e)
        } else {
            HyprlandError::ConnectionFailed(e)
        }
    }
}

/// `dispatch ` (with its trailing space).
pub open spec fn dispatch_prefix() -> Seq<char> {
    "dispatch "@
}

/// `[[BATCH]]`.
pub open spec fn batch_marker() -> Seq<char> {
    "[[BATCH]]"@
}

/// `; `.
pub open spec fn batch_separator() -> Seq<char> {
    "; "@
}

/// `keyword ` (with its trailing space).
pub open spec fn keyword_prefix() -> Seq<char> {
    "keyword "@
}

/// The parts joined with `sep` between consecutive parts.
pub open spec fn join_spec(parts: Seq<Seq<char>>, sep: Seq<char>) -> Seq<char>
    decreases parts.len(),
{
    if parts.len() == 0 {
        seq![]
    } else if parts.len() == 1 {
        parts[0]
    } else {
        join_spec(parts.drop_last(), sep) + sep + parts.last()
    }
}

/// Each of `parts` prefixed with `each`, joined with `sep`.
pub fn join_prefixed(parts: &[&str], each: &str, sep: &str) -> (r: Vec<char>)
    ensures
        r@ == join_spec(parts@.map_values(|p: &str| each@ + p@), sep@),
{
    let mut out: Vec<char> = Vec::new();
    let mut i: usize = 0;
    let ghost all = parts@.map_values(|p: &str| each@ + p@);
    while i < parts.len()
        invariant
            i <= parts.len(),
            all == parts@.map_values(|p: &str| each@ + p@),
            out@ == join_spec(all.take(i as int), sep@),
        decreases parts.len() - i,
    {
        if i > 0 {
            push_str(&mut out, sep);
        }
        push_str(&mut out, each);
        push_str(&mut out, parts[i]);
        proof {
            let t = all.take(i + 1);
            assert(t.drop_last() =~= all.take(i as int));
            assert(t.last() == each@ + parts@[i as int]@);
            if i == 0 {
                assert(t.len() == 1);
                assert(out@ =~= t[0]);
            } else {
                assert(out@ =~= join_spec(t.drop_last(), sep@) + sep@ + t.last());
            }
        }
        i = i + 1;
    }
    assert(all.take(i as int) =~= all);
    out
}

/// Diagnostic text for a rejected command: `cmd=<cmd> response=<reply>`,
/// each quoted and escaped as `Debug` renders strings.
pub open spec fn command_failed_text(cmd: Seq<char>, response: Seq<char>) -> Seq<char> {
    "cmd="@ + debug_quoted(cmd) + " response="@ + debug_quoted(response)
}

fn command_failed_message(cmd: &str, response: &str) -> (m: String)
    ensures
        m@ == command_failed_text(cmd@, response@),
{
    let mut out: Vec<char> = Vec::new();
    push_str(&mut out, "cmd=");
    push_str(&mut out, debug_string(cmd).as_str());
    push_str(&mut out, " response=");
    push_str(&mut out, debug_string(response).as_str());
    string_from_chars(&out)
}

/// Whether a `j/clients` / `j/monitors` reply carries no JSON at all (an
/// empty body, read as "no entries").
pub fn reply_is_empty(response: &str) -> (r: bool)
    ensures
        r == (response@.len() == 0),
{
    let s = str_chars(response);
    s.len() == 0
}

/// The literal `{}`.
pub open spec fn empty_object() -> Seq<char> {
    seq!['{', '}']
}

/// Whether a `j/activewindow` reply means "no active window": an empty body
/// or, after trimming white space, an empty JSON object.
pub fn active_window_reply_is_empty(response: &str) -> (r: bool)
    ensures
        r == (response@.len() == 0 || trim(response@) == empty_object()),
{
    let s = str_chars(response);
    if s.len() == 0 {
        return true;
    }
    let t = trimmed(s.as_slice());
    let r = t.len() == 2 && t[0] == '{' && t[1] == '}';
    proof {
        if r {
            assert(t@ =~= empty_object());
        } else if t@ == empty_object() {
            assert(t@[0] == '{' && t@[1] == '}');
        }
    }
    r
}

/// The active window as parsed from a non-empty reply: a window with an
/// empty (or rejected) address is not a real window.
pub fn active_window_from(client: Client) -> (r: Option<Client>)
    ensures
        client.address@.len() == 0 ==> r is None,
        client.address@.len() > 0 ==> r == Some(client),
{
    let empty = str_chars(client.address.as_str()).len() == 0;
    if empty {
        None
    } else {
        Some(client)
    }
}

/// Index of the first monitor flagged as focused.
pub fn focused_monitor_index(monitors: &[Monitor]) -> (r: Option<usize>)
    ensures
        match r {
            Some(i) => i < monitors@.len() && monitors@[i as int].focused && forall|j: int|
                0 <= j < i ==> !(#[trigger] monitors@[j]).focused,
            None => forall|j: int| 0 <= j < monitors@.len() ==> !(#[trigger] monitors@[j]).focused,
        },
{
    let mut i: usize = 0;
    while i < monitors.len()
        invariant
            i <= monitors.len(),
            forall|j: int| 0 <= j < i ==> !(#[trigger] monitors@[j]).focused,
        decreases monitors.len() - i,
    {
        if monitors[i].focused {
            return Some(i);
        }
        i = i + 1;
    }
    None
}

// ---------------------------------------------------------------------------
// Live-instance selection
// ---------------------------------------------------------------------------
/// Probe outcome for a single Hyprland instance.
#[derive(Debug, Clone, Copy, PartialEq, Eq, Structural)]
pub enum Liveness {
    /// The socket answered `activewindow` with a real window.
    LiveWithClients,
    /// The socket answered, but with no window (`Invalid` or nothing).
    LiveEmpty,
    /// Unreachable: connect refused, missing, not a socket, or timed out.
    Dead,
}

/// `Invalid`.
pub open spec fn invalid_reply() -> Seq<char> {
    "Invalid"@
}

/// Classify a probe's `activewindow` reply (the connection succeeded).
pub fn classify_probe_reply(reply: &str) -> (l: Liveness)
    ensures
        (trim(reply@).len() == 0 || trim(reply@) == invalid_reply()) ==> l == Liveness::LiveEmpty,
        !(trim(reply@).len() == 0 || trim(reply@) == invalid_reply()) ==> l
            == Liveness::LiveWithClients,
{
    let s = str_chars(reply);
    let t = trimmed(s.as_slice());
    let inv = str_chars("Invalid");
    if t.len() == 0 || crate::text::chars_eq(t.as_slice(), inv.as_slice()) {
        Liveness::LiveEmpty
    } else {
        Liveness::LiveWithClients
    }
}

/// A scanned instance directory with its modification time (nanoseconds
/// relative to the UNIX epoch) and its probe outcome.
#[derive(Debug, Clone)]
pub struct Candidate {
    pub name: String,
    pub mtime: i128,
    pub liveness: Liveness,
}

/// `want` admits `l` (`None` admits every outcome).
pub open spec fn admits(want: Option<Liveness>, l: Liveness) -> bool {
    match want {
        Some(w) => w == l,
        None => true,
    }
}

/// `i` is the pick among candidates admitted by `want`: newest
/// modification time, the earliest such on ties (scan order is kept among
/// equal times).
pub open spec fn is_pick(c: Seq<Candidate>, want: Option<Liveness>, i: int) -> bool {
    &&& 0 <= i < c.len()
    &&& admits(want, c[i].liveness)
    &&& forall|j: int| 0 <= j < c.len() && admits(want, #[trigger] c[j].liveness) ==> c[j].mtime <= c[i].mtime
    &&& forall|j: int| 0 <= j < i && admits(want, #[trigger] c[j].liveness) ==> c[j].mtime < c[i].mtime
}

/// No candidate is admitted by `want`.
pub open spec fn none_admitted(c: Seq<Candidate>, want: Option<Liveness>) -> bool {
    forall|j: int| 0 <= j < c.len() ==> !admits(want, #[trigger] c[j].liveness)
}

/// Index of the newest candidate admitted by `want` (earliest on ties).
pub fn pick_newest(c: &[Candidate], want: Option<Liveness>) -> (r: Option<usize>)
    ensures
        match r {
            Some(i) => is_pick(c@, want, i as int),
            None => none_admitted(c@, want),
        },
{
    let mut best: Option<usize> = None;
    let mut i: usize = 0;
    while i < c.len()
        invariant
            i <= c.len(),
            match best {
                Some(b) => b < i && admits(want, c@[b as int].liveness) && (forall|j: int|
                    0 <= j < i && admits(want, #[trigger] c@[j].liveness) ==> c@[j].mtime
                        <= c@[b as int].mtime) && (forall|j: int|
                    0 <= j < b && admits(want, #[trigger] c@[j].liveness) ==> c@[j].mtime
                        < c@[b as int].mtime),
                None => forall|j: int| 0 <= j < i ==> !admits(want, #[trigger] c@[j].liveness),
            },
        decreases c.len() - i,
    {
        let ok = match want {
            Some(w) => w == c[i].liveness,
            None => true,
        };
        if ok {
            match best {
                None => {
                    best = Some(i);
                },
                Some(b) => {
                    if c[i].mtime > c[b].mtime {
                        best = Some(i);
                    }
                },
            }
        }
        i = i + 1;
    }
    best
}

/// The instance chosen from a directory scan, once the environment hint (if
/// any) has probed dead or is absent: the newest instance with clients,
/// else the newest live-but-empty one, else the hint, else the newest
/// scanned directory. `scan` is `None` when the instance directory could
/// not be read.
pub open spec fn scan_choice(hint: Option<Seq<char>>, scan: Option<Seq<Candidate>>) -> Option<
    Seq<char>,
> {
    match scan {
        None => hint,
        Some(c) => if c.len() == 0 {
            hint
        } else if !none_admitted(c, Some(Liveness::LiveWithClients)) {
            Some(c[choose|i: int| is_pick(c, Some(Liveness::LiveWithClients), i)].name@)
        } else if !none_admitted(c, Some(Liveness::LiveEmpty)) {
            Some(c[choose|i: int| is_pick(c, Some(Liveness::LiveEmpty), i)].name@)
        } else if hint is Some {
            hint
        } else {
            Some(c[choose|i: int| is_pick(c, None, i)].name@)
        },
    }
}

proof fn lemma_pick_unique(c: Seq<Candidate>, want: Option<Liveness>, i: int, k: int)
    requires
        is_pick(c, want, i),
        is_pick(c, want, k),
    ensures
        i == k,
{
    if i < k {
        assert(c[i].mtime <= c[k].mtime);
    } else if k < i {
        assert(c[k].mtime <= c[i].mtime);
    }
}

/// Choose an instance from a directory scan (see [`scan_choice`]);
/// `NoLiveInstance` when nothing can be chosen.
pub fn choose_from_scan(hint: Option<String>, scan: Option<&[Candidate]>) -> (r: Result<
    String,
    HyprlandError,
>)
    ensures
        match scan_choice(
            match hint {
                Some(h) => Some(h@),
                None => None,
            },
            match scan {
                Some(c) => Some(c@),
                None => None,
            },
        ) {
            Some(name) => r is Ok && r->Ok_0@ == name,
            None => r matches Err(HyprlandError::NoLiveInstance),
        },
{
    let c = match scan {
        None => {
            return match hint {
                Some(h) => Ok(h),
                None => Err(HyprlandError::NoLiveInstance),
            };
        },
        Some(c) => c,
    };
    if c.len() == 0 {
        return match hint {
            Some(h) => Ok(h),
            None => Err(HyprlandError::NoLiveInstance),
        };
    }
    match pick_newest(c, Some(Liveness::LiveWithClients)) {
        Some(i) => {
            proof {
                let k = choose|k: int| is_pick(c@, Some(Liveness::LiveWithClients), k);
                lemma_pick_unique(c@, Some(Liveness::LiveWithClients), i as int, k);
            }
            return Ok(c[i].name.clone());
        },
        None => {},
    }
    match pick_newest(c, Some(Liveness::LiveEmpty)) {
        Some(i) => {
            proof {
                let k = choose|k: int| is_pick(c@, Some(Liveness::LiveEmpty), k);
                lemma_pick_unique(c@, Some(Liveness::LiveEmpty), i as int, k);
            }
            return Ok(c[i].name.clone());
        },
        None => {},
    }
    match hint {
        Some(h) => {
            return Ok(h);
        },
        None => {},
    }
    match pick_newest(c, None) {
        Some(i) => {
            proof {
                let k = choose|k: int| is_pick(c@, None, k);
                lemma_pick_unique(c@, None, i as int, k);
            }
            Ok(c[i].name.clone())
        },
        None => {
            assert(!admits(None, c@[0].liveness));
            Err(HyprlandError::NoLiveInstance)
        },
    }
}

/// The environment hint, kept only when non-empty and a safe signature.
pub fn usable_env_hint(raw: Option<&str>) -> (r: Option<String>)
    ensures
        match raw {
            Some(h) => if h@.len() > 0 && safe_his(h@) {
                r is Some && r->0@ == h@
            } else {
                r is None
            },
            None => r is None,
        },
{
    match raw {
        Some(h) => {
            if str_chars(h).len() > 0 && is_safe_his(h) {
                Some(string_of(h))
            } else {
                None
            }
        },
        None => None,
    }
}

/// Whether a probed environment hint is used without scanning.
pub fn hint_is_live(l: Liveness) -> (r: bool)
    ensures
        r == (l != Liveness::Dead),
{
    l != Liveness::Dead
}

/// Whether a scanned directory entry is a candidate instance: a real
/// directory (not a symlink) whose name is a safe signature.
pub fn is_candidate_entry(name: &str, is_symlink: bool, is_dir: bool) -> (r: bool)
    ensures
        r == (!is_symlink && is_dir && safe_his(name@)),
{
    if is_symlink || !is_dir {
        return false;
    }
    is_safe_his(name)
}

// ---------------------------------------------------------------------------
// Runtime directory and socket paths
// ---------------------------------------------------------------------------
/// `XDG_RUNTIME_DIR`.
pub open spec fn runtime_var() -> Seq<char> {
    "XDG_RUNTIME_DIR"@
}

/// `HYPRLAND_INSTANCE_SIGNATURE`.
pub open spec fn his_var() -> Seq<char> {
    "HYPRLAND_INSTANCE_SIGNATURE"@
}

/// Validate `XDG_RUNTIME_DIR`: it must be set, absolute and free of `..`
/// components.
pub fn validated_runtime_dir(raw: Option<&str>) -> (r: Result<String, HyprlandError>)
    ensures
        match raw {
            None => r matches Err(HyprlandError::MissingEnvVar(v)) && v@ == runtime_var(),
            Some(p) => if is_absolute(p@) && !has_parent_dir(p@) {
                r is Ok && r->Ok_0@ == p@
            } else {
                r matches Err(HyprlandError::InvalidEnvVar(v)) && v@ == runtime_var()
            },
        },
{
    match raw {
        None => Err(HyprlandError::MissingEnvVar("XDG_RUNTIME_DIR")),
        Some(p) => {
            let c = str_chars(p);
            if path_is_absolute(c.as_slice()) && !contains_parent_dir(c.as_slice()) {
                Ok(string_of(p))
            } else {
                Err(HyprlandError::InvalidEnvVar("XDG_RUNTIME_DIR"))
            }
        },
    }
}

/// The path of socket `name` of instance `his`:
/// `<runtime>/hypr/<his>/<name>`, after re-validating every piece. An
/// unsafe `name` or signature is reported as an invalid signature variable.
pub fn runtime_socket_path(name: &str, xdg_runtime_dir: Option<&str>, his: &str) -> (r: Result<
    String,
    HyprlandError,
>)
    ensures
        !safe_component(name@) ==> (r matches Err(HyprlandError::InvalidEnvVar(v)) && v@
            == his_var()),
        safe_component(name@) && !safe_his(his@) ==> (r matches Err(
            HyprlandError::InvalidEnvVar(v),
        ) && v@ == his_var()),
        safe_component(name@) && safe_his(his@) ==> match xdg_runtime_dir {
            None => r matches Err(HyprlandError::MissingEnvVar(v)) && v@ == runtime_var(),
            Some(p) => if is_absolute(p@) && !has_parent_dir(p@) {
                r is Ok && r->Ok_0@ == join_path(
                    join_path(join_path(p@, "hypr"@), his@),
                    name@,
                )
            } else {
                r matches Err(HyprlandError::InvalidEnvVar(v)) && v@ == runtime_var()
            },
        },
{
    if !is_safe_component(name) {
        return Err(HyprlandError::InvalidEnvVar("HYPRLAND_INSTANCE_SIGNATURE"));
    }
    if !is_safe_his(his) {
        return Err(HyprlandError::InvalidEnvVar("HYPRLAND_INSTANCE_SIGNATURE"));
    }
    let dir = validated_runtime_dir(xdg_runtime_dir)?;
    let d = str_chars(dir.as_str());
    let comps = ["hypr", his, name];
    let p = join_all(d.as_slice(), &comps);
    proof {
        let cs = comps@.map_values(|c: &str| c@);
        assert(cs.len() == 3);
        assert(cs.drop_last().drop_last().drop_last() =~= Seq::<Seq<char>>::empty());
        assert(cs.drop_last().drop_last() =~= seq![cs[0]]);
        assert(cs.drop_last() =~= seq![cs[0], cs[1]]);
        assert(join_seq(d@, cs.drop_last().drop_last().drop_last()) == d@);
        assert(join_seq(d@, cs.drop_last().drop_last()) == join_path(d@, cs[0]));
        assert(join_seq(d@, cs.drop_last()) == join_path(join_path(d@, cs[0]), cs[1]));
        assert(join_seq(d@, cs) == join_path(join_path(join_path(d@, cs[0]), cs[1]), cs[2]));
    }
    Ok(p)
}

} // verus!
