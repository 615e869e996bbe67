//! Media-window matching: which clients the configured patterns recognise
//! as media windows, which one a command acts on, and which non-media
//! window had focus last.
use vstd::prelude::*;

use crate::config::{regex_match_within, regex_matches_within, Pattern};
use crate::hyprland::Client;
use crate::text::str_is;

verus! {

/// The regex crate's default compiled-size limit (10 MiB), the one
/// `Regex::new` applies.
pub const DEFAULT_REGEX_SIZE_LIMIT: usize = 10485760;

/// How strongly a media window claims to be the one a command acts on:
/// a pinned window first, then the focused one, then any other.
#[derive(Debug, Clone, Copy, PartialEq, Eq, Structural)]
pub enum Priority {
    Pinned,
    Focused,
    Other,
}

/// A window recognised as a media window, with the geometry and state the
/// commands act on.
#[derive(Debug)]
pub struct MediaWindow {
    pub address: String,
    pub class: String,
    pub title: String,
    pub x: i32,
    pub y: i32,
    pub width: i32,
    pub height: i32,
    pub floating: bool,
    pub pinned: bool,
    pub fullscreen: u8,
    pub pid: i32,
    /// Whether the matching pattern asks for the window to be kept pinned.
    pub always_pin: bool,
    /// Why this window was chosen.
    pub priority: Priority,
}

impl Clone for MediaWindow {
    fn clone(&self) -> (r: Self)
        ensures
            r == *self,
    {
        MediaWindow {
            address: self.address.clone(),
            class: self.class.clone(),
            title: self.title.clone(),
            x: self.x,
            y: self.y,
            width: self.width,
            height: self.height,
            floating: self.floating,
            pinned: self.pinned,
            fullscreen: self.fullscreen,
            pid: self.pid,
            always_pin: self.always_pin,
            priority: self.priority,
        }
    }
}

// ---------------------------------------------------------------------------
// Pattern matching
// ---------------------------------------------------------------------------
/// The client property a pattern looks at: the title for key `title`, the
/// class otherwise.
pub open spec fn matched_text(p: Pattern, c: Client) -> Seq<char> {
    if p.key@ == "title"@ {
        c.title@
    } else {
        c.class@
    }
}

/// Pattern `p` recognises client `c`: its regex matches the property, and a
/// pinned-only pattern also needs the window pinned or fullscreen.
pub open spec fn pattern_matches(p: Pattern, c: Client) -> bool {
    &&& regex_matches_within(p.value@, DEFAULT_REGEX_SIZE_LIMIT as int, matched_text(p, c))
    &&& (!p.pinned_only || c.pinned || c.fullscreen > 0)
}

/// The first pattern at index `i` or later that recognises `c`.
pub open spec fn first_match_from(ps: Seq<Pattern>, c: Client, i: int) -> Option<int>
    decreases ps.len() - i,
{
    if 0 <= i < ps.len() {
        if pattern_matches(ps[i], c) {
            Some(i)
        } else {
            first_match_from(ps, c, i + 1)
        }
    } else {
        None
    }
}

/// The first pattern that recognises `c`; patterns are tried in order.
pub open spec fn first_matching_pattern(ps: Seq<Pattern>, c: Client) -> Option<int> {
    first_match_from(ps, c, 0)
}

/// `c` is a media window under the patterns `ps`.
pub open spec fn is_media_spec(ps: Seq<Pattern>, c: Client) -> bool {
    first_matching_pattern(ps, c) is Some
}

/// Whether pattern `p` recognises client `c` (the regex compiled as
/// `Regex::new` does; a regex that does not compile matches nothing).
pub fn pattern_matches_client(p: &Pattern, c: &Client) -> (r: bool)
    ensures
        r == pattern_matches(*p, *c),
{
    let on_title = str_is(p.key.as_str(), "title");
    let text = if on_title {
        c.title.as_str()
    } else {
        c.class.as_str()
    };
    let hit = regex_match_within(p.value.as_str(), DEFAULT_REGEX_SIZE_LIMIT, text);
    hit && (!p.pinned_only || c.pinned || c.fullscreen > 0)
}

/// The index of the first pattern that recognises `c`, if any.
pub fn media_pattern(patterns: &[Pattern], c: &Client) -> (r: Option<usize>)
    ensures
        match r {
            Some(i) => i < patterns.len() && first_matching_pattern(patterns@, *c) == Some(i as int),
            None => first_matching_pattern(patterns@, *c) is None,
        },
{
    let mut i: usize = 0;
    while i < patterns.len()
        invariant
            i <= patterns.len(),
            first_match_from(patterns@, *c, 0) == first_match_from(patterns@, *c, i as int),
        decreases patterns.len() - i,
    {
        if pattern_matches_client(&patterns[i], c) {
            return Some(i);
        }
        i = i + 1;
    }
    None
}

/// Whether `c` is a media window.
pub fn is_media(patterns: &[Pattern], c: &Client) -> (r: bool)
    ensures
        r == is_media_spec(patterns@, *c),
{
    media_pattern(patterns, c).is_some()
}

// ---------------------------------------------------------------------------
// Choosing windows
// ---------------------------------------------------------------------------
/// The focus address as a model.
pub open spec fn focus_view(focus: Option<&str>) -> Option<Seq<char>> {
    match focus {
        Some(f) => Some(f@),
        None => None,
    }
}

/// The priority of client `c` given the focused address.
pub open spec fn priority_of(c: Client, focus: Option<Seq<char>>) -> Priority {
    if c.pinned {
        Priority::Pinned
    } else if focus == Some(c.address@) {
        Priority::Focused
    } else {
        Priority::Other
    }
}

/// Rank of a priority; lower wins.
pub open spec fn priority_rank(p: Priority) -> int {
    match p {
        Priority::Pinned => 0,
        Priority::Focused => 1,
        Priority::Other => 2,
    }
}

/// `w` describes client `c`, matched by a pattern with `always_pin` and
/// chosen with `priority`.
pub open spec fn describes(w: MediaWindow, c: Client, always_pin: bool, priority: Priority) -> bool {
    &&& w.address == c.address
    &&& w.class == c.class
    &&& w.title == c.title
    &&& w.x == c.at[0]
    &&& w.y == c.at[1]
    &&& w.width == c.size[0]
    &&& w.height == c.size[1]
    &&& w.floating == c.floating
    &&& w.pinned == c.pinned
    &&& w.fullscreen == c.fullscreen
    &&& w.pid == c.pid
    &&& w.always_pin == always_pin
    &&& w.priority == priority
}

/// `w` is the media-window record of client `c` under the patterns `ps`.
pub open spec fn media_record(ps: Seq<Pattern>, w: MediaWindow, c: Client, priority: Priority) -> bool {
    &&& first_matching_pattern(ps, c) is Some
    &&& describes(w, c, ps[first_matching_pattern(ps, c)->0].always_pin, priority)
}

/// Among the first `n` clients, the media window with the best priority;
/// the earliest one among equals.
pub open spec fn best_media_upto(
    ps: Seq<Pattern>,
    cs: Seq<Client>,
    focus: Option<Seq<char>>,
    n: int,
) -> Option<int>
    decreases n,
{
    if n <= 0 {
        None
    } else {
        let prev = best_media_upto(ps, cs, focus, n - 1);
        let i = n - 1;
        if !is_media_spec(ps, cs[i]) {
            prev
        } else {
            match prev {
                None => Some(i),
                Some(j) => if priority_rank(priority_of(cs[i], focus)) < priority_rank(
                    priority_of(cs[j], focus),
                ) {
                    Some(i)
                } else {
                    Some(j)
                },
            }
        }
    }
}

/// The media window a command acts on: the best priority, the earliest in
/// the snapshot among equals.
pub open spec fn media_window_choice(ps: Seq<Pattern>, cs: Seq<Client>, focus: Option<Seq<char>>) -> Option<int> {
    best_media_upto(ps, cs, focus, cs.len() as int)
}

/// The rank of `p` as a number.
fn rank(p: Priority) -> (r: u8)
    ensures
        r == priority_rank(p),
{
    match p {
        Priority::Pinned => 0,
        Priority::Focused => 1,
        Priority::Other => 2,
    }
}

/// The priority of `c` given the focused address.
fn priority_for(c: &Client, focus: Option<&str>) -> (r: Priority)
    ensures
        r == priority_of(*c, focus_view(focus)),
{
    if c.pinned {
        Priority::Pinned
    } else {
        match focus {
            Some(f) => if str_is(c.address.as_str(), f) {
                Priority::Focused
            } else {
                Priority::Other
            },
            None => Priority::Other,
        }
    }
}

/// The media-window record of `c`.
fn media_window_from(c: &Client, always_pin: bool, priority: Priority) -> (w: MediaWindow)
    ensures
        describes(w, *c, always_pin, priority),
{
    MediaWindow {
        address: c.address.clone(),
        class: c.class.clone(),
        title: c.title.clone(),
        x: c.at[0],
        y: c.at[1],
        width: c.size[0],
        height: c.size[1],
        floating: c.floating,
        pinned: c.pinned,
        fullscreen: c.fullscreen,
        pid: c.pid,
        always_pin,
        priority,
    }
}

/// The media window to act on (see [`media_window_choice`]), `None` when
/// no client is a media window.
pub fn find_media_window(patterns: &[Pattern], clients: &[Client], focus: Option<&str>) -> (r: Option<MediaWindow>)
    ensures
        match media_window_choice(patterns@, clients@, focus_view(focus)) {
            None => r is None,
            Some(j) => r is Some && media_record(
                patterns@,
                r->0,
                clients@[j],
                priority_of(clients@[j], focus_view(focus)),
            ),
        },
{
    let ghost fv = focus_view(focus);
    let mut best: Option<(usize, usize, u8)> = None;
    let mut i: usize = 0;
    while i < clients.len()
        invariant
            i <= clients.len(),
            fv == focus_view(focus),
            match best {
                None => best_media_upto(patterns@, clients@, fv, i as int) is None,
                Some((j, k, rk)) => {
                    &&& best_media_upto(patterns@, clients@, fv, i as int) == Some(j as int)
                    &&& j < clients.len()
                    &&& k < patterns.len()
                    &&& first_matching_pattern(patterns@, clients@[j as int]) == Some(k as int)
                    &&& rk == priority_rank(priority_of(clients@[j as int], fv))
                },
            },
        decreases clients.len() - i,
    {
        let c = &clients[i];
        match media_pattern(patterns, c) {
            None => {},
            Some(k) => {
                let rk = rank(priority_for(c, focus));
                match best {
                    None => {
                        best = Some((i, k, rk));
                    },
                    Some((_, _, brk)) => {
                        if rk < brk {
                            best = Some((i, k, rk));
                        }
                    },
                }
            },
        }
        i = i + 1;
    }
    match best {
        None => None,
        Some((j, k, _)) => {
            let c = &clients[j];
            let p = priority_for(c, focus);
            Some(media_window_from(c, patterns[k].always_pin, p))
        },
    }
}

/// Among the first `n` clients, the best media window is a media window, no
/// media window ranks better, and none of equal rank comes before it; when
/// there is none, no client there is a media window.
proof fn lemma_best_media_upto(ps: Seq<Pattern>, cs: Seq<Client>, focus: Option<Seq<char>>, n: int)
    requires
        0 <= n <= cs.len(),
    ensures
        match best_media_upto(ps, cs, focus, n) {
            Some(j) => {
                &&& 0 <= j < n
                &&& is_media_spec(ps, cs[j])
                &&& forall|i: int|
                    0 <= i < n && is_media_spec(ps, #[trigger] cs[i]) ==> priority_rank(
                        priority_of(cs[j], focus),
                    ) <= priority_rank(priority_of(cs[i], focus)) && (priority_rank(
                        priority_of(cs[j], focus),
                    ) == priority_rank(priority_of(cs[i], focus)) ==> j <= i)
            },
            None => forall|i: int| 0 <= i < n ==> !is_media_spec(ps, #[trigger] cs[i]),
        },
    decreases n,
{
    if n > 0 {
        lemma_best_media_upto(ps, cs, focus, n - 1);
    }
}

/// The media window a command acts on is a media window of the snapshot,
/// and every other media window ranks no better: a pinned media window is
/// chosen over the focused one, the focused one over any other, and among
/// equals the earliest in the snapshot wins. With no media window there is
/// no choice.
pub proof fn lemma_media_window_choice_is_best(ps: Seq<Pattern>, cs: Seq<Client>, focus: Option<Seq<char>>)
    ensures
        match media_window_choice(ps, cs, focus) {
            Some(j) => {
                &&& 0 <= j < cs.len()
                &&& is_media_spec(ps, cs[j])
                &&& forall|i: int|
                    0 <= i < cs.len() && is_media_spec(ps, #[trigger] cs[i]) ==> priority_rank(
                        priority_of(cs[j], focus),
                    ) <= priority_rank(priority_of(cs[i], focus)) && (priority_rank(
                        priority_of(cs[j], focus),
                    ) == priority_rank(priority_of(cs[i], focus)) ==> j <= i)
            },
            None => forall|i: int| 0 <= i < cs.len() ==> !is_media_spec(ps, #[trigger] cs[i]),
        },
{
    lemma_best_media_upto(ps, cs, focus, cs.len() as int);
}

/// Among the first `n` clients, the visible media windows on `monitor`.
pub open spec fn media_on_monitor(ps: Seq<Pattern>, cs: Seq<Client>, monitor: i32, n: int) -> Seq<int>
    decreases n,
{
    if n <= 0 {
        Seq::empty()
    } else {
        let prev = media_on_monitor(ps, cs, monitor, n - 1);
        let c = cs[n - 1];
        if c.monitor == monitor && c.visible() && is_media_spec(ps, c) {
            prev.push(n - 1)
        } else {
            prev
        }
    }
}

/// Every visible media window on `monitor`, in snapshot order (priority
/// `Pinned` for a pinned window, `Other` otherwise).
pub fn find_media_windows(patterns: &[Pattern], clients: &[Client], monitor: i32) -> (r: Vec<MediaWindow>)
    ensures
        ({
            let idx = media_on_monitor(patterns@, clients@, monitor, clients@.len() as int);
            &&& r@.len() == idx.len()
            &&& forall|k: int|
                0 <= k < idx.len() ==> 0 <= idx[k] < clients@.len() && media_record(
                    patterns@,
                    #[trigger] r@[k],
                    clients@[idx[k]],
                    priority_of(clients@[idx[k]], None),
                )
        }),
{
    let mut out: Vec<MediaWindow> = Vec::new();
    let mut i: usize = 0;
    assert(media_on_monitor(patterns@, clients@, monitor, 0) =~= Seq::<int>::empty());
    while i < clients.len()
        invariant
            i <= clients.len(),
            ({
                let idx = media_on_monitor(patterns@, clients@, monitor, i as int);
                &&& out@.len() == idx.len()
                &&& forall|k: int|
                    0 <= k < idx.len() ==> media_record(
                        patterns@,
                        #[trigger] out@[k],
                        clients@[idx[k]],
                        priority_of(clients@[idx[k]], None),
                    )
            }),
        decreases clients.len() - i,
    {
        let c = &clients[i];
        let ghost before = out@;
        let ghost prev_idx = media_on_monitor(patterns@, clients@, monitor, i as int);
        let ghost next_idx = media_on_monitor(patterns@, clients@, monitor, i + 1);
        if c.monitor == monitor && c.is_visible() {
            match media_pattern(patterns, c) {
                None => {
                    assert(next_idx == prev_idx);
                },
                Some(k) => {
                    let p = priority_for(c, None);
                    let w = media_window_from(c, patterns[k].always_pin, p);
                    out.push(w);
                    assert(next_idx == prev_idx.push(i as int));
                    assert forall|m: int| 0 <= m < next_idx.len() implies media_record(
                        patterns@,
                        #[trigger] out@[m],
                        clients@[next_idx[m]],
                        priority_of(clients@[next_idx[m]], None),
                    ) by {
                        if m < prev_idx.len() {
                            assert(out@[m] == before[m]);
                        }
                    }
                },
            }
        } else {
            assert(next_idx == prev_idx);
        }
        i = i + 1;
    }
    proof {
        lemma_media_on_monitor_bounds(patterns@, clients@, monitor, clients@.len() as int);
    }
    out
}

/// Every index that [`media_on_monitor`] lists for the first `n` clients
/// is below `n`.
proof fn lemma_media_on_monitor_bounds(ps: Seq<Pattern>, cs: Seq<Client>, monitor: i32, n: int)
    ensures
        forall|k: int|
            0 <= k < media_on_monitor(ps, cs, monitor, n).len() ==> 0 <= #[trigger] media_on_monitor(
                ps,
                cs,
                monitor,
                n,
            )[k] < n,
    decreases n,
{
    if n > 0 {
        lemma_media_on_monitor_bounds(ps, cs, monitor, n - 1);
        let prev = media_on_monitor(ps, cs, monitor, n - 1);
        let cur = media_on_monitor(ps, cs, monitor, n);
        assert forall|k: int| 0 <= k < cur.len() implies 0 <= #[trigger] cur[k] < n by {
            if k < prev.len() {
                assert(cur[k] == prev[k]);
            }
        }
    }
}

/// For each client, whether it is a media window.
pub fn media_flags(patterns: &[Pattern], clients: &[Client]) -> (r: Vec<bool>)
    ensures
        r@ == clients@.map_values(|c: Client| is_media_spec(patterns@, c)),
{
    let mut out: Vec<bool> = Vec::new();
    let mut i: usize = 0;
    while i < clients.len()
        invariant
            i <= clients.len(),
            out@ == clients@.take(i as int).map_values(|c: Client| is_media_spec(patterns@, c)),
        decreases clients.len() - i,
    {
        let b = is_media(patterns, &clients[i]);
        out.push(b);
        i = i + 1;
        assert(clients@.take(i as int) =~= clients@.take(i - 1).push(clients@[i - 1]));
        assert(out@ =~= clients@.take(i as int).map_values(|c: Client| is_media_spec(patterns@, c)));
    }
    assert(clients@.take(clients@.len() as int) =~= clients@);
    out
}

/// The media windows that are not fullscreen (the ones the avoider moves).
pub fn windowed_only(windows: &[MediaWindow]) -> (r: Vec<MediaWindow>)
    ensures
        r@ == windows@.filter(|w: MediaWindow| w.fullscreen == 0),
{
    let mut out: Vec<MediaWindow> = Vec::new();
    let mut i: usize = 0;
    while i < windows.len()
        invariant
            i <= windows.len(),
            out@ == windows@.take(i as int).filter(|w: MediaWindow| w.fullscreen == 0),
        decreases windows.len() - i,
    {
        let w = &windows[i];
        reveal_with_fuel(Seq::filter, 1);
        assert(windows@.take(i + 1).drop_last() =~= windows@.take(i as int));
        if w.fullscreen == 0 {
            out.push(w.clone());
        }
        i = i + 1;
    }
    assert(windows@.take(windows@.len() as int) =~= windows@);
    out
}

/// `c` can take focus back: not `focused`, visible, focused before, on
/// `workspace` when one is given, and not a media window.
pub open spec fn focus_candidate(
    ps: Seq<Pattern>,
    c: Client,
    focused: Seq<char>,
    workspace: Option<i32>,
) -> bool {
    &&& c.address@ != focused
    &&& c.visible()
    &&& c.ever_focused()
    &&& (workspace matches Some(w) ==> c.workspace.id == w)
    &&& !is_media_spec(ps, c)
}

/// Among the first `n` clients, the candidate with the lowest focus-history
/// id (the most recently focused); the earliest one among equals.
pub open spec fn previous_focus_upto(
    ps: Seq<Pattern>,
    cs: Seq<Client>,
    focused: Seq<char>,
    workspace: Option<i32>,
    n: int,
) -> Option<int>
    decreases n,
{
    if n <= 0 {
        None
    } else {
        let prev = previous_focus_upto(ps, cs, focused, workspace, n - 1);
        let i = n - 1;
        if !focus_candidate(ps, cs[i], focused, workspace) {
            prev
        } else {
            match prev {
                None => Some(i),
                Some(j) => if cs[i].focus_history_id < cs[j].focus_history_id {
                    Some(i)
                } else {
                    Some(j)
                },
            }
        }
    }
}

/// The candidate chosen among the first `n` clients has the lowest
/// focus-history id of them.
proof fn lemma_previous_focus_upto(
    ps: Seq<Pattern>,
    cs: Seq<Client>,
    focused: Seq<char>,
    workspace: Option<i32>,
    n: int,
)
    requires
        0 <= n <= cs.len(),
    ensures
        match previous_focus_upto(ps, cs, focused, workspace, n) {
            Some(j) => {
                &&& 0 <= j < n
                &&& focus_candidate(ps, cs[j], focused, workspace)
                &&& forall|i: int|
                    0 <= i < n && focus_candidate(ps, #[trigger] cs[i], focused, workspace)
                        ==> cs[j].focus_history_id <= cs[i].focus_history_id
            },
            None => forall|i: int| 0 <= i < n ==> !focus_candidate(ps, #[trigger] cs[i], focused, workspace),
        },
    decreases n,
{
    if n > 0 {
        lemma_previous_focus_upto(ps, cs, focused, workspace, n - 1);
    }
}

/// The window focus goes back to is a candidate (visible, focused before,
/// not the window given up, on the workspace when one is given, and not a
/// media window) with the lowest focus-history id of all candidates, that
/// is, the most recently focused one; with no candidate there is none.
pub proof fn lemma_previous_focus_is_most_recent(
    ps: Seq<Pattern>,
    cs: Seq<Client>,
    focused: Seq<char>,
    workspace: Option<i32>,
)
    ensures
        match previous_focus_upto(ps, cs, focused, workspace, cs.len() as int) {
            Some(j) => {
                &&& 0 <= j < cs.len()
                &&& focus_candidate(ps, cs[j], focused, workspace)
                &&& forall|i: int|
                    0 <= i < cs.len() && focus_candidate(ps, #[trigger] cs[i], focused, workspace)
                        ==> cs[j].focus_history_id <= cs[i].focus_history_id
            },
            None => forall|i: int|
                0 <= i < cs.len() ==> !focus_candidate(ps, #[trigger] cs[i], focused, workspace),
        },
{
    lemma_previous_focus_upto(ps, cs, focused, workspace, cs.len() as int);
}

/// The most recently focused visible non-media window other than
/// `focused`, on `workspace` when one is given.
pub fn find_previous_focus(
    patterns: &[Pattern],
    clients: &[Client],
    focused: &str,
    workspace: Option<i32>,
) -> (r: Option<String>)
    ensures
        match previous_focus_upto(patterns@, clients@, focused@, workspace, clients@.len() as int) {
            None => r is None,
            Some(j) => r is Some && r->0 == clients@[j].address,
        },
{
    let mut best: Option<usize> = None;
    let mut i: usize = 0;
    while i < clients.len()
        invariant
            i <= clients.len(),
            match best {
                None => previous_focus_upto(patterns@, clients@, focused@, workspace, i as int) is None,
                Some(j) => previous_focus_upto(patterns@, clients@, focused@, workspace, i as int)
                    == Some(j as int) && j < i,
            },
        decreases clients.len() - i,
    {
        let c = &clients[i];
        let on_ws = match workspace {
            Some(w) => c.workspace.id == w,
            None => true,
        };
        if !str_is(c.address.as_str(), focused) && c.is_visible() && c.has_focus_history() && on_ws
            && !is_media(patterns, c) {
            match best {
                None => {
                    best = Some(i);
                },
                Some(j) => {
                    if c.focus_history_id < clients[j].focus_history_id {
                        best = Some(i);
                    }
                },
            }
        }
        i = i + 1;
    }
    match best {
        None => None,
        Some(j) => Some(clients[j].address.clone()),
    }
}

} // verus!
