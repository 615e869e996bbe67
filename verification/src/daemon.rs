//! Decision logic of the avoider daemon: which Hyprland events trigger a
//! pass, the per-burst client snapshot cache, the in-memory suppression
//! mirror, and the PID-file and process-identity checks.
use vstd::prelude::*;

use std::time::{Duration, Instant};

use crate::actions::{
    millis_saturating, runtime_dir_message, runtime_dir_ok, runtime_file, stamp_is_fresh,
    stamp_suppresses,
};
use crate::error::MediaControlError;
use crate::paths::join_path;
use crate::hyprland::Client;
use crate::text::{
    chars_eq, debug_quoted, debug_string, decimal, nat_digits, parse_in_range, parse_int, push_nat_digits,
    push_str, str_chars, string_from_chars, trim, trimmed,
};

verus! {

#[verifier::external_type_specification]
#[verifier::external_body]
pub struct ExInstant(std::time::Instant);

// ---------------------------------------------------------------------------
// Clocks
// ---------------------------------------------------------------------------
/// Reads `SystemTime::now().duration_since(UNIX_EPOCH)` in whole
/// milliseconds (0 for a clock before the epoch). Nothing is stated of the
/// value: it is the time.
#[verifier::external_body]
fn wall_clock_millis() -> u128 {
    std::time::SystemTime::now().duration_since(std::time::UNIX_EPOCH).unwrap_or_default().as_millis()
}

/// Wall-clock milliseconds since the UNIX epoch, saturating at
/// `u64::MAX`.
pub fn now_unix_millis() -> u64 {
    millis_saturating(wall_clock_millis())
}

/// `Instant::now()`. Nothing is stated of it.
#[verifier::external_body]
fn instant_now() -> Instant {
    Instant::now()
}

/// `Instant::elapsed` in whole milliseconds, saturating at `u64::MAX`.
/// Nothing is stated of the value: it depends on the time of the call.
#[verifier::external_body]
fn elapsed_millis(at: &Instant) -> u64 {
    u64::try_from(at.elapsed().as_millis()).unwrap_or(u64::MAX)
}

/// The whole milliseconds of `d` as `Duration::as_millis` counts them,
/// saturated at `u64::MAX`.
pub uninterp spec fn duration_ms(d: Duration) -> u64;

/// `Duration::as_millis`, saturating at `u64::MAX`; the value is named by
/// [`duration_ms`].
#[verifier::external_body]
fn duration_millis(d: Duration) -> (r: u64)
    ensures
        r == duration_ms(d),
{
    u64::try_from(d.as_millis()).unwrap_or(u64::MAX)
}

/// `Duration::from_millis`: a duration of `ms` milliseconds, so that its
/// whole milliseconds (`as_millis`, see [`duration_ms`]) are `ms` again.
#[verifier::external_body]
fn duration_from_millis(ms: u64) -> (r: Duration)
    ensures
        duration_ms(r) == ms,
{
    Duration::from_millis(ms)
}

// ---------------------------------------------------------------------------
// Event filter
// ---------------------------------------------------------------------------
/// Hyprland events that warrant a re-evaluation of the media window's
/// placement.
pub open spec fn avoid_event_names() -> Seq<Seq<char>> {
    seq![
        "workspace"@,
        "activewindow"@,
        "movewindow"@,
        "openwindow"@,
        "closewindow"@,
        "swapwindow"@,
    ]
}

/// The event names that trigger an avoid pass.
pub fn avoid_events() -> (r: Vec<&'static str>)
    ensures
        crate::actions::str_views(r@) == avoid_event_names(),
{
    let mut r: Vec<&'static str> = Vec::new();
    r.push("workspace");
    r.push("activewindow");
    r.push("movewindow");
    r.push("openwindow");
    r.push("closewindow");
    r.push("swapwindow");
    assert(crate::actions::str_views(r@) =~= avoid_event_names());
    r
}

/// `>>` starts at `i` in `line`.
pub open spec fn separator_at(line: Seq<char>, i: int) -> bool {
    0 <= i && i + 1 < line.len() && line[i] == '>' && line[i + 1] == '>'
}

/// The event name of a socket2 line: the text before the first `>>`, or
/// the whole line when there is none.
pub open spec fn event_name(line: Seq<char>) -> Seq<char> {
    if exists|i: int| separator_at(line, i) {
        line.take(
            choose|i: int| separator_at(line, i) && forall|j: int| 0 <= j < i ==> !separator_at(line, j),
        )
    } else {
        line
    }
}

fn event_end(line: &[char]) -> (end: usize)
    ensures
        end <= line@.len(),
        event_name(line@) == line@.take(end as int),
{
    let n = line.len();
    let mut i: usize = 0;
    while n - i > 1 && !(line[i] == '>' && line[i + 1] == '>')
        invariant
            i <= n,
            n == line@.len(),
            forall|j: int| 0 <= j < i ==> !separator_at(line@, j),
        decreases n - i,
    {
        i = i + 1;
    }
    if n - i > 1 {
        proof {
            assert(separator_at(line@, i as int));
            let k = choose|k: int|
                separator_at(line@, k) && forall|j: int| 0 <= j < k ==> !separator_at(line@, j);
            if k < i {
                assert(!separator_at(line@, k));
            } else if i < k {
                assert(!separator_at(line@, i as int));
            }
        }
        i
    } else {
        proof {
            assert forall|k: int| !separator_at(line@, k) by {
                if separator_at(line@, k) {
                    assert(k < i);
                }
            }
            assert(line@.take(n as int) =~= line@);
        }
        n
    }
}

/// The avoider reacts to exactly six Hyprland events: a line whose event
/// name (the text before `>>`, holding no `>`) is `workspace`,
/// `activewindow`, `movewindow`, `openwindow`, `closewindow` or
/// `swapwindow` triggers an avoid pass once the debounce time has passed,
/// and a line of any other event is ignored.
pub proof fn lemma_avoid_trigger_events(name: Seq<char>, rest: Seq<char>, since_last_ms: u64, debounce_ms: u64)
    requires
        forall|k: int| 0 <= k < name.len() ==> name[k] != '>',
    ensures
        event_name(name + ">>"@ + rest) == name,
        avoid_event_names().contains(name) <==> (name == "workspace"@ || name == "activewindow"@
            || name == "movewindow"@ || name == "openwindow"@ || name == "closewindow"@ || name
            == "swapwindow"@),
        session_step_spec(0, name + ">>"@ + rest, since_last_ms, debounce_ms) == if (name
            == "workspace"@ || name == "activewindow"@ || name == "movewindow"@ || name
            == "openwindow"@ || name == "closewindow"@ || name == "swapwindow"@) && since_last_ms
            >= debounce_ms {
            SessionAction::Trigger
        } else {
            SessionAction::Ignore
        },
{
    reveal_strlit(">>");
    let line = name + ">>"@ + rest;
    let n = name.len() as int;
    assert(line[n] == '>' && line[n + 1] == '>');
    assert(separator_at(line, n));
    let i = choose|i: int| separator_at(line, i) && forall|j: int| 0 <= j < i ==> !separator_at(line, j);
    assert forall|j: int| 0 <= j < n implies !separator_at(line, j) by {
        assert(line[j] == name[j]);
    }
    if i < n {
        assert(line[i] == name[i]);
    }
    if i > n {
        assert(!separator_at(line, n));
    }
    assert(i == n);
    assert(line.take(n) =~= name);
    let names = avoid_event_names();
    assert(names[0] == "workspace"@);
    assert(names[1] == "activewindow"@);
    assert(names[2] == "movewindow"@);
    assert(names[3] == "openwindow"@);
    assert(names[4] == "closewindow"@);
    assert(names[5] == "swapwindow"@);
    if names.contains(name) {
        let k = choose|k: int| 0 <= k < names.len() && names[k] == name;
        assert(0 <= k < 6);
    }
}

/// Whether a Hyprland event line should trigger an avoid pass: its event
/// name is one of [`avoid_event_names`].
pub fn is_avoid_trigger(line: &str) -> (r: bool)
    ensures
        r == avoid_event_names().contains(event_name(line@)),
{
    let c = str_chars(line);
    let end = event_end(c.as_slice());
    let mut ev: Vec<char> = Vec::new();
    let mut k: usize = 0;
    while k < end
        invariant
            k <= end,
            end <= c@.len(),
            ev@ == c@.take(k as int),
        decreases end - k,
    {
        ev.push(c[k]);
        k = k + 1;
        assert(ev@ =~= c@.take(k as int));
    }
    let names = avoid_events();
    let mut i: usize = 0;
    while i < names.len()
        invariant
            i <= names@.len(),
            crate::actions::str_views(names@) == avoid_event_names(),
            ev@ == event_name(line@),
            forall|j: int| 0 <= j < i ==> avoid_event_names()[j] != ev@,
        decreases names.len() - i,
    {
        let nc = str_chars(names[i]);
        if chars_eq(ev.as_slice(), nc.as_slice()) {
            assert(avoid_event_names()[i as int] == ev@);
            return true;
        }
        i = i + 1;
    }
    false
}

// ---------------------------------------------------------------------------
// Client snapshot cache
// ---------------------------------------------------------------------------
/// Whether a snapshot `age_ms` old is still served under a `ttl_ms` TTL.
pub open spec fn snapshot_fresh(age_ms: u64, ttl_ms: u64) -> bool {
    age_ms < ttl_ms
}

/// The `j/clients` snapshot of the current event burst, with the time it
/// was taken. A burst of related events reuses one snapshot; the next
/// burst, one TTL later, refetches.
pub struct ClientCache {
    snapshot: Option<(Instant, Vec<Client>)>,
    ttl: Duration,
    ttl_ms: u64,
}

impl ClientCache {
    /// The cached clients, if a snapshot was installed.
    pub closed spec fn cached(&self) -> Option<Seq<Client>> {
        match self.snapshot {
            Some((_, v)) => Some(v@),
            None => None,
        }
    }

    /// The time-to-live, in whole milliseconds.
    pub closed spec fn ttl(&self) -> u64 {
        self.ttl_ms
    }

    /// The time-to-live the cache was made with.
    pub closed spec fn ttl_span(&self) -> Duration {
        self.ttl
    }

    /// An empty cache whose snapshots live for `ttl` (counted in whole
    /// milliseconds).
    pub fn new(ttl: Duration) -> (c: Self)
        ensures
            c.cached() is None,
            c.ttl_span() == ttl,
            c.ttl() == duration_ms(ttl),
    {
        ClientCache { snapshot: None, ttl: ttl, ttl_ms: duration_millis(ttl) }
    }

    /// An empty cache whose snapshots live for `ttl_ms` milliseconds.
    pub fn with_ttl_millis(ttl_ms: u64) -> (c: Self)
        ensures
            c.cached() is None,
            c.ttl() == ttl_ms,
            duration_ms(c.ttl_span()) == ttl_ms,
    {
        ClientCache { snapshot: None, ttl: duration_from_millis(ttl_ms), ttl_ms }
    }

    /// The cached clients if the snapshot is `age_ms` old: served while
    /// younger than the TTL.
    pub fn hit_at(&self, age_ms: u64) -> (r: Option<Vec<Client>>)
        ensures
            match self.cached() {
                None => r is None,
                Some(v) => if snapshot_fresh(age_ms, self.ttl()) {
                    r is Some && r->0@ == v
                } else {
                    r is None
                },
            },
    {
        match &self.snapshot {
            None => None,
            Some((_, v)) => {
                if age_ms < self.ttl_ms {
                    let c = v.clone();
                    assert(c@ =~= v@);
                    Some(c)
                } else {
                    None
                }
            },
        }
    }

    /// The cached clients, if a snapshot exists and is younger than the
    /// TTL now. Whatever the clock says, a hit is the installed snapshot
    /// and an empty cache never hits.
    pub fn try_hit(&self) -> (r: Option<Vec<Client>>)
        ensures
            self.cached() is None ==> r is None,
            r is Some ==> self.cached() == Some(r->0@),
            self.ttl() == 0 ==> r is None,
    {
        match &self.snapshot {
            None => None,
            Some((at, _)) => {
                let age = elapsed_millis(at);
                self.hit_at(age)
            },
        }
    }

    /// Install `clients` as the snapshot taken now, replacing any earlier
    /// one.
    pub fn install(&mut self, clients: Vec<Client>)
        ensures
            final(self).cached() == Some(clients@),
            final(self).ttl() == old(self).ttl(),
            final(self).ttl_span() == old(self).ttl_span(),
    {
        self.snapshot = Some((instant_now(), clients));
    }
}

// ---------------------------------------------------------------------------
// Suppression mirror
// ---------------------------------------------------------------------------
/// The daemon's in-memory copy of the newest suppression stamp it knows
/// (`0`: never warmed). The on-disk file stays the cross-process channel;
/// the mirror only saves reading it while a stamp is fresh.
pub struct SuppressState {
    last_ms: u64,
}

impl SuppressState {
    /// The mirrored stamp.
    pub closed spec fn stamp(&self) -> u64 {
        self.last_ms
    }

    /// A cold mirror.
    pub fn new() -> (s: Self)
        ensures
            s.stamp() == 0,
    {
        SuppressState { last_ms: 0 }
    }

    /// Record a stamp taken at `now_ms` (after a successful avoid pass).
    pub fn warm_at(&mut self, now_ms: u64)
        ensures
            final(self).stamp() == now_ms,
    {
        self.last_ms = now_ms;
    }

    /// Record a stamp taken now.
    pub fn warm(&mut self) {
        self.warm_at(now_unix_millis());
    }

    /// The mirror alone suppresses at `now_ms`: it was warmed and the stamp
    /// is younger than the timeout.
    pub fn mirror_hit(&self, now_ms: u64, timeout_ms: u64) -> (r: bool)
        ensures
            r == (self.stamp() != 0 && stamp_suppresses(now_ms, self.stamp(), timeout_ms)),
    {
        self.last_ms != 0 && stamp_is_fresh(now_ms, self.last_ms, timeout_ms)
    }

    /// After a mirror miss: the suppress file's stamp (`None` when missing,
    /// unreadable or unparseable) suppresses at `now_ms` when fresh, and is
    /// then promoted into the mirror; otherwise the mirror is unchanged.
    pub fn consider_file(&mut self, file_stamp: Option<u64>, now_ms: u64, timeout_ms: u64) -> (r: bool)
        ensures
            r == match file_stamp {
                Some(f) => stamp_suppresses(now_ms, f, timeout_ms),
                None => false,
            },
            final(self).stamp() == if r {
                file_stamp->0
            } else {
                old(self).stamp()
            },
    {
        match file_stamp {
            Some(f) => {
                if stamp_is_fresh(now_ms, f, timeout_ms) {
                    self.last_ms = f;
                    true
                } else {
                    false
                }
            },
            None => false,
        }
    }
}

/// Warming the mirror at `t` suppresses every check strictly less than the
/// timeout after `t`, and none from the timeout on.
pub proof fn lemma_warm_window(t: u64, now: u64, timeout: u64)
    requires
        t != 0,
        t <= now,
    ensures
        stamp_suppresses(now, t, timeout) <==> now - t < timeout,
{
}

/// The mirror only saves work: while the suppress file holds a stamp at
/// least as recent as the mirrored one, checking the mirror first and the
/// file second decides exactly as checking the file alone.
pub proof fn lemma_mirror_is_additive(mirror: u64, file: u64, now: u64, timeout: u64)
    requires
        mirror <= file,
    ensures
        ((mirror != 0 && stamp_suppresses(now, mirror, timeout)) || stamp_suppresses(
            now,
            file,
            timeout,
        )) == stamp_suppresses(now, file, timeout),
{
}

// ---------------------------------------------------------------------------
// PID file and process identity
// ---------------------------------------------------------------------------
/// The PID a PID file names: its trimmed content as an `i32`, accepted
/// only above 1 (0 and negatives would signal process groups, 1 is init).
pub open spec fn pid_file_spec(content: Seq<char>) -> Option<i32> {
    match parse_in_range(trim(content), true, i32::MIN as int, i32::MAX as int) {
        Some(v) => if v > 1 {
            Some(v as i32)
        } else {
            None
        },
        None => None,
    }
}

/// Read the PID out of a PID file's content.
pub fn parse_pid_file(content: &str) -> (r: Option<i32>)
    ensures
        r == pid_file_spec(content@),
{
    let c = str_chars(content);
    let t = trimmed(c.as_slice());
    match parse_int(t.as_slice(), true, i32::MIN as i128, i32::MAX as i128) {
        Some(v) => {
            if v > 1 {
                Some(v as i32)
            } else {
                None
            }
        },
        None => None,
    }
}

/// Longest `/proc/<pid>/comm` content (the kernel's task-name limit less
/// the NUL).
pub const COMM_MAX: usize = 15;

/// The names `/proc/<pid>/comm` may show for a program named `full`: the
/// name, or its first fifteen characters.
pub open spec fn comm_truncated(full: Seq<char>) -> Seq<char> {
    if full.len() > COMM_MAX {
        full.take(COMM_MAX as int)
    } else {
        full
    }
}

/// Whether a process's `comm` (as read, with its trailing newline) names
/// the program `full`, whole or truncated to the kernel's limit. `full`
/// is an ASCII program name, so characters and bytes coincide.
pub fn comm_matches(comm: &str, full: &str) -> (r: bool)
    requires
        forall|i: int| 0 <= i < full@.len() ==> (full@[i] as u32) < 128,
    ensures
        r == (trim(comm@) == full@ || trim(comm@) == comm_truncated(full@)),
{
    let c = str_chars(comm);
    let t = trimmed(c.as_slice());
    let f = str_chars(full);
    if chars_eq(t.as_slice(), f.as_slice()) {
        return true;
    }
    if f.len() > COMM_MAX {
        let mut p: Vec<char> = Vec::new();
        let mut k: usize = 0;
        while k < COMM_MAX
            invariant
                k <= COMM_MAX,
                COMM_MAX < f@.len(),
                p@ == f@.take(k as int),
            decreases COMM_MAX - k,
        {
            p.push(f[k]);
            k = k + 1;
            assert(p@ =~= f@.take(k as int));
        }
        chars_eq(t.as_slice(), p.as_slice())
    } else {
        false
    }
}

// ---------------------------------------------------------------------------
// Event session and reconnect loop
// ---------------------------------------------------------------------------
/// What the event session saw next.
#[derive(Debug)]
pub enum SessionEvent {
    /// A line from Hyprland's event socket.
    Line(String),
    /// A line on the manual-trigger FIFO.
    FifoTrigger,
    /// The event socket reached end of stream.
    SocketClosed,
    /// Reading the event socket failed.
    ReadFailed,
}

/// What the event session does about it.
#[derive(Debug, Clone, Copy, PartialEq, Eq, Structural)]
pub enum SessionAction {
    /// Run an avoid pass and restart the debounce clock.
    Trigger,
    /// Nothing (an unrelated event, or still inside the debounce window).
    Ignore,
    /// End the session and reconnect.
    Reconnect,
}

/// The session's reaction: a relevant event line or a FIFO trigger runs a
/// pass once at least `debounce_ms` passed since the last one; a closed or
/// failed socket ends the session for a reconnect.
pub open spec fn session_step_spec(
    kind: int,
    line: Seq<char>,
    since_last_ms: u64,
    debounce_ms: u64,
) -> SessionAction {
    if kind == 2 || kind == 3 {
        SessionAction::Reconnect
    } else if (kind == 1 || avoid_event_names().contains(event_name(line))) && since_last_ms
        >= debounce_ms {
        SessionAction::Trigger
    } else {
        SessionAction::Ignore
    }
}

/// The model of a session event: its kind (0 line, 1 FIFO, 2 closed,
/// 3 failed) and its line.
pub open spec fn session_event_view(e: SessionEvent) -> (int, Seq<char>) {
    match e {
        SessionEvent::Line(l) => (0, l@),
        SessionEvent::FifoTrigger => (1, Seq::empty()),
        SessionEvent::SocketClosed => (2, Seq::empty()),
        SessionEvent::ReadFailed => (3, Seq::empty()),
    }
}

/// Decide the session's reaction to `event`, `since_last_ms` after the
/// last avoid pass.
pub fn session_step(event: &SessionEvent, since_last_ms: u64, debounce_ms: u64) -> (r: SessionAction)
    ensures
        r == session_step_spec(
            session_event_view(*event).0,
            session_event_view(*event).1,
            since_last_ms,
            debounce_ms,
        ),
{
    let relevant = match event {
        SessionEvent::Line(l) => is_avoid_trigger(l.as_str()),
        SessionEvent::FifoTrigger => true,
        SessionEvent::SocketClosed => {
            return SessionAction::Reconnect;
        },
        SessionEvent::ReadFailed => {
            return SessionAction::Reconnect;
        },
    };
    if relevant && since_last_ms >= debounce_ms {
        SessionAction::Trigger
    } else {
        SessionAction::Ignore
    }
}

/// How an event session ended.
#[derive(Debug, Clone, Copy, PartialEq, Eq, Structural)]
pub enum SessionOutcome {
    /// The socket closed or failed: reconnect.
    Disconnected,
    /// Clean shutdown.
    Finished,
    /// The session could not run (connect or setup error).
    Failed,
}

/// What the reconnect loop does next.
#[derive(Debug, Clone, Copy, PartialEq, Eq, Structural)]
pub enum LoopAction {
    /// Wait `delay_ms`, recreate the trigger FIFO if it is missing, and
    /// start a new session.
    Reconnect { delay_ms: u64 },
    /// Stop the loop.
    Stop,
    /// Wait `delay_ms` and start a new session.
    Retry { delay_ms: u64 },
}

/// Delay before reconnecting after a closed socket.
pub const RECONNECT_DELAY_MS: u64 = 500;

/// Delay before retrying after a failed session.
pub const SESSION_RETRY_DELAY_MS: u64 = 2000;

/// The reconnect loop's reaction to a session's end.
pub fn loop_step(outcome: SessionOutcome) -> (r: LoopAction)
    ensures
        outcome == SessionOutcome::Disconnected ==> r == (LoopAction::Reconnect {
            delay_ms: RECONNECT_DELAY_MS,
        }),
        outcome == SessionOutcome::Finished ==> r == LoopAction::Stop,
        outcome == SessionOutcome::Failed ==> r == (LoopAction::Retry {
            delay_ms: SESSION_RETRY_DELAY_MS,
        }),
{
    match outcome {
        SessionOutcome::Disconnected => LoopAction::Reconnect { delay_ms: RECONNECT_DELAY_MS },
        SessionOutcome::Finished => LoopAction::Stop,
        SessionOutcome::Failed => LoopAction::Retry { delay_ms: SESSION_RETRY_DELAY_MS },
    }
}

/// First delay between attempts to reach the event socket.
pub const CONNECT_BACKOFF_START_MS: u64 = 500;

/// Longest delay between attempts to reach the event socket.
pub const CONNECT_BACKOFF_MAX_MS: u64 = 10000;

/// The delay after `backoff_ms`: doubled, capped at the maximum.
pub fn next_backoff_ms(backoff_ms: u64) -> (r: u64)
    ensures
        r == if 2 * backoff_ms < CONNECT_BACKOFF_MAX_MS {
            2 * backoff_ms
        } else {
            CONNECT_BACKOFF_MAX_MS as int
        },
{
    if backoff_ms < CONNECT_BACKOFF_MAX_MS / 2 {
        backoff_ms * 2
    } else {
        CONNECT_BACKOFF_MAX_MS
    }
}

/// From any delay between the initial one and the maximum, the next delay
/// never shrinks and never exceeds the maximum.
pub proof fn lemma_backoff_bounded(b: u64)
    requires
        CONNECT_BACKOFF_START_MS <= b <= CONNECT_BACKOFF_MAX_MS,
    ensures
        ({
            let n = if 2 * b < CONNECT_BACKOFF_MAX_MS {
                2 * b
            } else {
                CONNECT_BACKOFF_MAX_MS as int
            };
            b <= n <= CONNECT_BACKOFF_MAX_MS
        }),
{
}

// ---------------------------------------------------------------------------
// Trigger FIFO listener
// ---------------------------------------------------------------------------
/// What the FIFO listener saw.
#[derive(Debug, Clone, Copy, PartialEq, Eq, Structural)]
pub enum FifoEvent {
    /// Opening the FIFO failed.
    OpenFailed,
    /// A line was read.
    Line,
    /// The writer closed the FIFO.
    Eof,
    /// A read was interrupted by a signal.
    Interrupted,
    /// A read failed otherwise.
    ReadFailed,
}

/// What the FIFO listener does.
#[derive(Debug, Clone, Copy, PartialEq, Eq, Structural)]
pub enum FifoAction {
    /// Queue a trigger (dropped when one is already pending; the listener
    /// stops when the channel is closed), then read on.
    Signal,
    /// Read again at once.
    ReadAgain,
    /// Reopen the FIFO at once.
    Reopen,
    /// Wait the error backoff, then reopen.
    BackoffReopen,
}

/// Delay after a FIFO open or read error.
pub const FIFO_ERROR_BACKOFF_MS: u64 = 100;

/// The listener's reaction to `event`.
pub fn fifo_step(event: FifoEvent) -> (r: FifoAction)
    ensures
        r == match event {
            FifoEvent::OpenFailed => FifoAction::BackoffReopen,
            FifoEvent::Line => FifoAction::Signal,
            FifoEvent::Eof => FifoAction::Reopen,
            FifoEvent::Interrupted => FifoAction::ReadAgain,
            FifoEvent::ReadFailed => FifoAction::BackoffReopen,
        },
{
    match event {
        FifoEvent::OpenFailed => FifoAction::BackoffReopen,
        FifoEvent::Line => FifoAction::Signal,
        FifoEvent::Eof => FifoAction::Reopen,
        FifoEvent::Interrupted => FifoAction::ReadAgain,
        FifoEvent::ReadFailed => FifoAction::BackoffReopen,
    }
}

/// Whether the foreground daemon must (re)write the PID file: unless it
/// already names this process.
pub fn pid_file_needs_claim(recorded: Option<i32>, our_pid: u32) -> (r: bool)
    ensures
        r == match recorded {
            Some(p) => p != our_pid,
            None => true,
        },
{
    match recorded {
        Some(p) => !(p >= 0 && p as u32 == our_pid),
        None => true,
    }
}

/// Why an entry already at the trigger FIFO's path may not be replaced:
/// a symlink (removing it would remove its target), anything but a FIFO,
/// or a FIFO of another user. `None`: it is ours to remove and recreate.
pub open spec fn fifo_refusal(
    path: Seq<char>,
    is_symlink: bool,
    is_fifo: bool,
    owner_uid: u32,
    our_uid: u32,
) -> Option<Seq<char>> {
    let head = "refusing to use "@ + debug_quoted(path);
    if is_symlink {
        Some(head + ": it is a symlink"@)
    } else if !is_fifo {
        Some(head + ": not a FIFO"@)
    } else if owner_uid != our_uid {
        Some(
            head + ": owned by uid "@ + nat_digits(owner_uid as nat) + " (expected "@ + nat_digits(
                our_uid as nat,
            ) + ")"@,
        )
    } else {
        None
    }
}

/// Check an entry found at the trigger FIFO's path (see
/// [`fifo_refusal`]); `Ok` means it may be removed and recreated.
pub fn existing_fifo_check(
    path: &str,
    is_symlink: bool,
    is_fifo: bool,
    owner_uid: u32,
    our_uid: u32,
) -> (r: Result<(), String>)
    ensures
        match fifo_refusal(path@, is_symlink, is_fifo, owner_uid, our_uid) {
            None => r is Ok,
            Some(m) => r is Err && r->Err_0@ == m,
        },
{
    if !is_symlink && is_fifo && owner_uid == our_uid {
        return Ok(());
    }
    let mut out: Vec<char> = Vec::new();
    push_str(&mut out, "refusing to use ");
    push_str(&mut out, debug_string(path).as_str());
    if is_symlink {
        push_str(&mut out, ": it is a symlink");
    } else if !is_fifo {
        push_str(&mut out, ": not a FIFO");
    } else {
        push_str(&mut out, ": owned by uid ");
        push_nat_digits(&mut out, owner_uid as u64);
        push_str(&mut out, " (expected ");
        push_nat_digits(&mut out, our_uid as u64);
        push_str(&mut out, ")");
    }
    Err(string_from_chars(&out))
}

/// A PID written to the PID file in decimal is read back as the same PID,
/// for every PID the reader accepts (above 1).
pub proof fn lemma_pid_file_round_trip(pid: i32)
    requires
        pid > 1,
    ensures
        pid_file_spec(decimal(pid as int)) == Some(pid),
{
    crate::text::lemma_decimal_round_trip(pid as nat, true, i32::MIN as int, i32::MAX as int);
}

// ---------------------------------------------------------------------------
// Runtime files
// ---------------------------------------------------------------------------
/// The daemon's PID file: `$XDG_RUNTIME_DIR/media-control-daemon.pid`.
pub fn get_pid_file_path(raw: Option<&str>, is_dir: bool) -> (r: Result<String, MediaControlError>)
    ensures
        runtime_dir_ok(
            match raw {
                Some(p) => Some(p@),
                None => None,
            },
            is_dir,
        ) ==> r is Ok && r->Ok_0@ == join_path(raw->0@, "media-control-daemon.pid"@),
        !runtime_dir_ok(
            match raw {
                Some(p) => Some(p@),
                None => None,
            },
            is_dir,
        ) ==> (r matches Err(MediaControlError::InvalidArgument(m)) && m@ == runtime_dir_message()),
{
    runtime_file(raw, is_dir, "media-control-daemon.pid")
}

/// The manual-trigger FIFO: `$XDG_RUNTIME_DIR/media-avoider-trigger.fifo` (per user, never world-writable `/tmp`).
pub fn get_fifo_path(raw: Option<&str>, is_dir: bool) -> (r: Result<String, MediaControlError>)
    ensures
        runtime_dir_ok(
            match raw {
                Some(p) => Some(p@),
                None => None,
            },
            is_dir,
        ) ==> r is Ok && r->Ok_0@ == join_path(raw->0@, "media-avoider-trigger.fifo"@),
        !runtime_dir_ok(
            match raw {
                Some(p) => Some(p@),
                None => None,
            },
            is_dir,
        ) ==> (r matches Err(MediaControlError::InvalidArgument(m)) && m@ == runtime_dir_message()),
{
    runtime_file(raw, is_dir, "media-avoider-trigger.fifo")
}

/// The start lock serialising `start`: `$XDG_RUNTIME_DIR/media-control-daemon.start.lock`.
pub fn start_lock_path(raw: Option<&str>, is_dir: bool) -> (r: Result<String, MediaControlError>)
    ensures
        runtime_dir_ok(
            match raw {
                Some(p) => Some(p@),
                None => None,
            },
            is_dir,
        ) ==> r is Ok && r->Ok_0@ == join_path(raw->0@, "media-control-daemon.start.lock"@),
        !runtime_dir_ok(
            match raw {
                Some(p) => Some(p@),
                None => None,
            },
            is_dir,
        ) ==> (r matches Err(MediaControlError::InvalidArgument(m)) && m@ == runtime_dir_message()),
{
    runtime_file(raw, is_dir, "media-control-daemon.start.lock")
}

// ---------------------------------------------------------------------------
// Stopping the daemon
// ---------------------------------------------------------------------------
/// How long `stop` waits for the daemon to exit after SIGTERM.
pub const STOP_TERM_WAIT_MS: u64 = 2000;

/// How long `stop` waits for the daemon to exit after SIGKILL.
pub const STOP_KILL_WAIT_MS: u64 = 1000;

/// The next thing `stop` does.
#[derive(Debug, Clone, Copy, PartialEq, Eq, Structural)]
pub enum StopAction {
    /// Send SIGTERM; the outcome reported back is whether it was delivered.
    SendTerm,
    /// Send SIGKILL; the outcome reported back is whether it was delivered.
    SendKill,
    /// Wait up to `ms` for the process to exit (`after_kill` after
    /// SIGKILL); the outcome reported back is whether it exited.
    WaitExit { ms: u64, after_kill: bool },
    /// Stop with this result, removing the PID file first when asked.
    Finish { success: bool, remove_pid_file: bool },
}

/// How `stop` begins: without a PID file it fails; with a stale one (the
/// process is gone) it removes the file and fails; otherwise it sends
/// SIGTERM.
pub open spec fn stop_begin_spec(pid_known: bool, running: bool) -> StopAction {
    if !pid_known {
        StopAction::Finish { success: false, remove_pid_file: false }
    } else if !running {
        StopAction::Finish { success: false, remove_pid_file: true }
    } else {
        StopAction::SendTerm
    }
}

/// What `stop` does after `done` came out as `ok`: a signal that cannot
/// be delivered fails the stop; SIGTERM is followed by a wait of
/// [`STOP_TERM_WAIT_MS`], and a process still running then is killed and
/// waited for [`STOP_KILL_WAIT_MS`]; an exit seen in either wait succeeds
/// and removes the PID file; a process that outlives SIGKILL fails the
/// stop. A finished stop stays finished.
pub open spec fn stop_next_spec(done: StopAction, ok: bool) -> StopAction {
    match done {
        StopAction::SendTerm => if ok {
            StopAction::WaitExit { ms: STOP_TERM_WAIT_MS, after_kill: false }
        } else {
            StopAction::Finish { success: false, remove_pid_file: false }
        },
        StopAction::SendKill => if ok {
            StopAction::WaitExit { ms: STOP_KILL_WAIT_MS, after_kill: true }
        } else {
            StopAction::Finish { success: false, remove_pid_file: false }
        },
        StopAction::WaitExit { after_kill, .. } => if ok {
            StopAction::Finish { success: true, remove_pid_file: true }
        } else if after_kill {
            StopAction::Finish { success: false, remove_pid_file: false }
        } else {
            StopAction::SendKill
        },
        StopAction::Finish { .. } => done,
    }
}

/// The first action of `stop` (see [`stop_begin_spec`]).
pub fn stop_begin(pid_known: bool, running: bool) -> (r: StopAction)
    ensures
        r == stop_begin_spec(pid_known, running),
{
    if !pid_known {
        StopAction::Finish { success: false, remove_pid_file: false }
    } else if !running {
        StopAction::Finish { success: false, remove_pid_file: true }
    } else {
        StopAction::SendTerm
    }
}

/// The action of `stop` after `done` came out as `ok` (see
/// [`stop_next_spec`]).
pub fn stop_next(done: StopAction, ok: bool) -> (r: StopAction)
    ensures
        r == stop_next_spec(done, ok),
{
    match done {
        StopAction::SendTerm => if ok {
            StopAction::WaitExit { ms: STOP_TERM_WAIT_MS, after_kill: false }
        } else {
            StopAction::Finish { success: false, remove_pid_file: false }
        },
        StopAction::SendKill => if ok {
            StopAction::WaitExit { ms: STOP_KILL_WAIT_MS, after_kill: true }
        } else {
            StopAction::Finish { success: false, remove_pid_file: false }
        },
        StopAction::WaitExit { after_kill, .. } => if ok {
            StopAction::Finish { success: true, remove_pid_file: true }
        } else if after_kill {
            StopAction::Finish { success: false, remove_pid_file: false }
        } else {
            StopAction::SendKill
        },
        StopAction::Finish { .. } => done,
    }
}

/// Whatever the outcomes, `stop` finishes within five actions after it
/// begins (SIGTERM, its wait, SIGKILL, its wait, the finish); SIGKILL is
/// only sent after the SIGTERM wait saw the process still running; and it
/// succeeds only when a wait saw the process exit, in which case the PID
/// file is removed.
pub proof fn lemma_stop_finishes(pid_known: bool, running: bool, o1: bool, o2: bool, o3: bool, o4: bool)
    ensures
        ({
            let a0 = stop_begin_spec(pid_known, running);
            let a1 = stop_next_spec(a0, o1);
            let a2 = stop_next_spec(a1, o2);
            let a3 = stop_next_spec(a2, o3);
            let a4 = stop_next_spec(a3, o4);
            &&& a4 is Finish
            &&& (a2 is SendKill ==> a0 is SendTerm && o1 && !o2)
            &&& (a4->success ==> a4->remove_pid_file && ((a1 is WaitExit && o2) || (a3 is WaitExit
                && o4)))
        }),
{
}

} // verus!
