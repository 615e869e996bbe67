//! Fullscreen toggle of the media window: which of auto-pin, enter or exit
//! applies, the batches each sends, the bounded exit-retry loop, and what is
//! restored (pin, position, focus) once fullscreen is left.
use vstd::prelude::*;

use crate::actions::{focus_window_action, pin_action, string_views, toggle_floating_action};
use crate::avoid::{client_with_address, is_first_with_address};
use crate::hyprland::Client;
use crate::text::{ascii_fold, chars_eq, str_chars, string_of};
use crate::window::MediaWindow;

verus! {

/// The `fullscreen 0` dispatcher: toggles fullscreen on the focused window.
pub open spec fn fullscreen_toggle() -> Seq<char> {
    "fullscreen 0"@
}

/// Most exit attempts before giving up.
pub const MAX_FULLSCREEN_EXIT_ATTEMPTS: u8 = 3;

// ---------------------------------------------------------------------------
// Picture-in-picture titles
// ---------------------------------------------------------------------------
/// `picture`, as the case-insensitive regex literal compares it.
pub open spec fn picture_at(s: Seq<char>, i: int) -> bool {
    0 <= i && i + 7 <= s.len() && forall|k: int|
        0 <= k < 7 ==> ascii_fold(#[trigger] s[i + k]) == ascii_fold("picture"@[k])
}

/// A title matching `(?i)picture.*picture`: two occurrences of `picture`
/// (in any ASCII case), the second starting after the first ends, with no
/// line break between them.
pub open spec fn pip_title(s: Seq<char>) -> bool {
    exists|i: int, j: int|
        #![trigger picture_at(s, i), picture_at(s, j)]
        picture_at(s, i) && picture_at(s, j) && i + 7 <= j && forall|k: int|
            i + 7 <= k < j ==> s[k] != '\n'
}

/// Matches `title` against `(?i)picture.*picture` with
/// `regex::Regex::is_match`. Per the regex crate's syntax documentation the
/// search is unanchored, `(?i)` compares with simple case folding (which
/// for the letters of `picture` is ASCII case) and `.` is any character but
/// `\n`; the contract states that reading.
#[verifier::external_body]
fn pip_regex_is_match(title: &str) -> (r: bool)
    ensures
        r == pip_title(title@),
{
    regex::Regex::new(r"(?i)picture.*picture").map(|re| re.is_match(title)).unwrap_or(false)
}

/// Whether a window title is a Picture-in-Picture title.
pub fn is_pip_title(title: &str) -> (r: bool)
    ensures
        r == pip_title(title@),
{
    pip_regex_is_match(title)
}

// ---------------------------------------------------------------------------
// Focus target after exit
// ---------------------------------------------------------------------------
/// The previous focus is still a usable target: not the media window, and
/// some visible window has that address.
pub open spec fn previous_still_valid(clients: Seq<Client>, media: Seq<char>, prev: Seq<char>) -> bool {
    prev != media && exists|i: int|
        0 <= i < clients.len() && (#[trigger] clients[i]).address@ == prev && clients[i].visible()
}

/// A fallback focus candidate: visible, ever focused, not the media window,
/// and on the media window's workspace when that is known.
pub open spec fn fallback_ok(c: Client, media: Seq<char>, ws: Option<i32>) -> bool {
    c.address@ != media && c.visible() && c.ever_focused() && match ws {
        Some(w) => c.workspace.id == w,
        None => true,
    }
}

/// `i` is the most recently focused fallback candidate (smallest history
/// id; the first of equals).
pub open spec fn is_fallback(clients: Seq<Client>, media: Seq<char>, ws: Option<i32>, i: int) -> bool {
    &&& 0 <= i < clients.len()
    &&& fallback_ok(clients[i], media, ws)
    &&& forall|j: int|
        0 <= j < clients.len() && fallback_ok(#[trigger] clients[j], media, ws)
            ==> clients[i].focus_history_id <= clients[j].focus_history_id
    &&& forall|j: int|
        0 <= j < i && fallback_ok(#[trigger] clients[j], media, ws)
            ==> clients[i].focus_history_id < clients[j].focus_history_id
}

/// The workspace of the media window, when it is still in the snapshot.
pub open spec fn media_workspace(clients: Seq<Client>, media: Seq<char>) -> Option<i32> {
    match client_with_address(clients, media) {
        Some(i) => Some(clients[i].workspace.id),
        None => None,
    }
}

/// Where focus goes after leaving fullscreen: the previous focus if still
/// valid, else the most recently focused fallback candidate, else nowhere.
pub open spec fn focus_target_spec(clients: Seq<Client>, media: Seq<char>, prev: Seq<char>) -> Option<
    Seq<char>,
> {
    if previous_still_valid(clients, media, prev) {
        Some(prev)
    } else {
        let ws = media_workspace(clients, media);
        if exists|i: int| is_fallback(clients, media, ws, i) {
            Some(clients[choose|i: int| is_fallback(clients, media, ws, i)].address@)
        } else {
            None
        }
    }
}

fn first_address_index(clients: &[Client], addr: &[char]) -> (r: Option<usize>)
    ensures
        match r {
            Some(i) => is_first_with_address(clients@, addr@, i as int),
            None => forall|j: int|
                0 <= j < clients@.len() ==> (#[trigger] clients@[j]).address@ != addr@,
        },
{
    let mut i: usize = 0;
    while i < clients.len()
        invariant
            i <= clients@.len(),
            forall|j: int| 0 <= j < i ==> (#[trigger] clients@[j]).address@ != addr@,
        decreases clients.len() - i,
    {
        let c = str_chars(clients[i].address.as_str());
        if chars_eq(c.as_slice(), addr) {
            return Some(i);
        }
        i = i + 1;
    }
    None
}

proof fn lemma_first_address(clients: Seq<Client>, addr: Seq<char>, r: Option<usize>)
    requires
        match r {
            Some(i) => is_first_with_address(clients, addr, i as int),
            None => forall|j: int| 0 <= j < clients.len() ==> (#[trigger] clients[j]).address@ != addr,
        },
    ensures
        client_with_address(clients, addr) == match r {
            Some(i) => Some(i as int),
            None => None::<int>,
        },
{
    match r {
        Some(i) => {
            let k = choose|k: int| is_first_with_address(clients, addr, k);
            if k < i {
                assert(clients[k].address@ != addr);
            } else if i < k {
                assert(clients[i as int].address@ != addr);
            }
        },
        None => {
            if exists|k: int| is_first_with_address(clients, addr, k) {
                let k = choose|k: int| is_first_with_address(clients, addr, k);
                assert(clients[k].address@ == addr);
            }
        },
    }
}

proof fn lemma_fallback_unique(clients: Seq<Client>, media: Seq<char>, ws: Option<i32>, i: int, k: int)
    requires
        is_fallback(clients, media, ws, i),
        is_fallback(clients, media, ws, k),
    ensures
        i == k,
{
    if i < k {
        assert(clients[i].focus_history_id < clients[k].focus_history_id);
    } else if k < i {
        assert(clients[k].focus_history_id < clients[i].focus_history_id);
    }
}

/// The fullscreen state of the window at `addr` in a fresh snapshot; a
/// window that is gone counts as out of fullscreen.
pub open spec fn fullscreen_state_spec(clients: Seq<Client>, addr: Seq<char>) -> u8 {
    match client_with_address(clients, addr) {
        Some(i) => clients[i].fullscreen,
        None => 0,
    }
}

/// Read the fullscreen state of `addr` from a fresh snapshot (see
/// [`fullscreen_state_spec`]).
pub fn fullscreen_state_of(clients: &[Client], addr: &str) -> (r: u8)
    ensures
        r == fullscreen_state_spec(clients@, addr@),
{
    let a = str_chars(addr);
    let i = first_address_index(clients, a.as_slice());
    proof {
        lemma_first_address(clients@, addr@, i);
    }
    match i {
        Some(k) => clients[k].fullscreen,
        None => 0,
    }
}

/// Choose the window to refocus after leaving fullscreen (see
/// [`focus_target_spec`]).
pub fn find_valid_focus_target(clients: &[Client], media_addr: &str, prev_addr: &str) -> (r: Option<
    String,
>)
    ensures
        match focus_target_spec(clients@, media_addr@, prev_addr@) {
            Some(a) => r is Some && r->0@ == a,
            None => r is None,
        },
{
    let media = str_chars(media_addr);
    let prev = str_chars(prev_addr);
    if !chars_eq(prev.as_slice(), media.as_slice()) {
        let mut i: usize = 0;
        while i < clients.len()
            invariant
                i <= clients@.len(),
                prev@ == prev_addr@,
                media@ == media_addr@,
                prev_addr@ != media_addr@,
                forall|j: int|
                    0 <= j < i ==> !((#[trigger] clients@[j]).address@ == prev_addr@
                        && clients@[j].visible()),
            decreases clients.len() - i,
        {
            let c = str_chars(clients[i].address.as_str());
            if chars_eq(c.as_slice(), prev.as_slice()) && clients[i].is_visible() {
                assert(clients@[i as int].address@ == prev_addr@);
                assert(previous_still_valid(clients@, media_addr@, prev_addr@));
                return Some(string_of(prev_addr));
            }
            i = i + 1;
        }
    }
    let mi = first_address_index(clients, media.as_slice());
    proof {
        lemma_first_address(clients@, media_addr@, mi);
    }
    let ws: Option<i32> = match mi {
        Some(i) => Some(clients[i].workspace.id),
        None => None,
    };
    let ghost wss = media_workspace(clients@, media_addr@);
    assert(ws == wss);
    let mut best: Option<usize> = None;
    let mut i: usize = 0;
    while i < clients.len()
        invariant
            i <= clients@.len(),
            media@ == media_addr@,
            ws == wss,
            match best {
                Some(b) => b < i && fallback_ok(clients@[b as int], media_addr@, ws) && (forall|j: int|
                    0 <= j < i && fallback_ok(#[trigger] clients@[j], media_addr@, ws)
                        ==> clients@[b as int].focus_history_id <= clients@[j].focus_history_id)
                    && (forall|j: int|
                    0 <= j < b && fallback_ok(#[trigger] clients@[j], media_addr@, ws)
                        ==> clients@[b as int].focus_history_id < clients@[j].focus_history_id),
                None => forall|j: int|
                    0 <= j < i ==> !fallback_ok(#[trigger] clients@[j], media_addr@, ws),
            },
        decreases clients.len() - i,
    {
        let c = &clients[i];
        let ca = str_chars(c.address.as_str());
        let same_ws = match ws {
            Some(w) => c.workspace.id == w,
            None => true,
        };
        if !chars_eq(ca.as_slice(), media.as_slice()) && c.is_visible() && c.has_focus_history()
            && same_ws {
            match best {
                None => {
                    best = Some(i);
                },
                Some(b) => {
                    if c.focus_history_id < clients[b].focus_history_id {
                        best = Some(i);
                    }
                },
            }
        }
        i = i + 1;
    }
    match best {
        Some(b) => {
            proof {
                assert(is_fallback(clients@, media_addr@, ws, b as int));
                let k = choose|k: int| is_fallback(clients@, media_addr@, ws, k);
                lemma_fallback_unique(clients@, media_addr@, ws, b as int, k);
            }
            Some(clients[b].address.clone())
        },
        None => {
            proof {
                if exists|k: int| is_fallback(clients@, media_addr@, ws, k) {
                    let k = choose|k: int| is_fallback(clients@, media_addr@, ws, k);
                    assert(fallback_ok(clients@[k], media_addr@, ws));
                }
            }
            None
        },
    }
}

// ---------------------------------------------------------------------------
// Toggle decision and batches
// ---------------------------------------------------------------------------
/// What the fullscreen toggle does first.
#[derive(Debug)]
pub enum FullscreenAction {
    /// Pin a floating always-pin window with a single dispatch.
    AutoPin(String),
    /// Float and pin a tiled always-pin window in one batch.
    AutoPinBatch(Vec<String>),
    /// Focus, unpin if pinned, and toggle fullscreen on, in one batch.
    Enter(Vec<String>),
    /// Focus and toggle fullscreen off, in one batch; then the exit loop and
    /// the restore steps follow.
    Exit(Vec<String>),
}

/// The model of a [`FullscreenAction`]: its kind (0 auto-pin single,
/// 1 auto-pin batch, 2 enter, 3 exit) and its actions.
pub open spec fn action_view(a: FullscreenAction) -> (int, Seq<Seq<char>>) {
    match a {
        FullscreenAction::AutoPin(s) => (0, seq![s@]),
        FullscreenAction::AutoPinBatch(v) => (1, string_views(v@)),
        FullscreenAction::Enter(v) => (2, string_views(v@)),
        FullscreenAction::Exit(v) => (3, string_views(v@)),
    }
}

/// The first step of the toggle for media window `w`: an unpinned,
/// non-fullscreen always-pin window is pinned (floated first if tiled);
/// a fullscreen window is focused and toggled off; any other is focused,
/// unpinned if pinned (fullscreen windows cannot be pinned) and toggled on.
pub open spec fn fullscreen_action_spec(w: MediaWindow) -> (int, Seq<Seq<char>>) {
    let focus = "focuswindow address:"@ + w.address@;
    let pin = "pin address:"@ + w.address@;
    let float = "togglefloating address:"@ + w.address@;
    if w.fullscreen == 0 && w.always_pin && !w.pinned {
        if w.floating {
            (0, seq![pin])
        } else {
            (1, seq![float, pin])
        }
    } else if w.fullscreen > 0 {
        (3, seq![focus, fullscreen_toggle()])
    } else if w.pinned {
        (2, seq![focus, pin, fullscreen_toggle()])
    } else {
        (2, seq![focus, fullscreen_toggle()])
    }
}

/// Decide the first step of the fullscreen toggle (see
/// [`fullscreen_action_spec`]).
pub fn fullscreen_action(w: &MediaWindow) -> (r: FullscreenAction)
    ensures
        action_view(r) == fullscreen_action_spec(*w),
{
    let addr = w.address.as_str();
    if w.fullscreen == 0 && w.always_pin && !w.pinned {
        if w.floating {
            return FullscreenAction::AutoPin(pin_action(addr));
        }
        let mut v: Vec<String> = Vec::new();
        v.push(toggle_floating_action(addr));
        v.push(pin_action(addr));
        assert(string_views(v@) =~= seq![
            "togglefloating address:"@ + w.address@,
            "pin address:"@ + w.address@,
        ]);
        return FullscreenAction::AutoPinBatch(v);
    }
    let mut v: Vec<String> = Vec::new();
    v.push(focus_window_action(addr));
    if w.fullscreen > 0 {
        v.push(string_of("fullscreen 0"));
        assert(string_views(v@) =~= seq!["focuswindow address:"@ + w.address@, fullscreen_toggle()]);
        return FullscreenAction::Exit(v);
    }
    if w.pinned {
        v.push(pin_action(addr));
    }
    v.push(string_of("fullscreen 0"));
    proof {
        if w.pinned {
            assert(string_views(v@) =~= seq![
                "focuswindow address:"@ + w.address@,
                "pin address:"@ + w.address@,
                fullscreen_toggle(),
            ]);
        } else {
            assert(string_views(v@) =~= seq![
                "focuswindow address:"@ + w.address@,
                fullscreen_toggle(),
            ]);
        }
    }
    FullscreenAction::Enter(v)
}

/// Entering and leaving fullscreen: a window already fullscreen gets an
/// exit batch, a window out of fullscreen gets an enter batch unless it is
/// an unpinned always-pin window (which is pinned first). Either batch
/// starts by focusing the window, ends with the fullscreen toggle, and
/// toggles exactly once, so it flips the fullscreen state; an enter batch
/// unpins first exactly when the window is pinned.
pub proof fn lemma_fullscreen_batches_toggle_once(w: MediaWindow)
    ensures
        ({
            let (kind, actions) = fullscreen_action_spec(w);
            &&& (w.fullscreen > 0 ==> kind == 3)
            &&& (w.fullscreen == 0 && !(w.always_pin && !w.pinned) ==> kind == 2)
            &&& (kind == 2 || kind == 3) ==> {
                &&& actions.len() >= 2
                &&& actions[0] == "focuswindow address:"@ + w.address@
                &&& actions.last() == "fullscreen 0"@
                &&& toggles(actions) == 1
                &&& (kind == 2 ==> (actions.contains("pin address:"@ + w.address@) <==> w.pinned))
            }
            &&& (kind == 0 || kind == 1) ==> toggles(actions) == 0
        }),
{
    reveal_strlit("fullscreen 0");
    reveal_strlit("focuswindow address:");
    reveal_strlit("pin address:");
    reveal_strlit("togglefloating address:");
    let focus = "focuswindow address:"@ + w.address@;
    let pin = "pin address:"@ + w.address@;
    let float = "togglefloating address:"@ + w.address@;
    let t = fullscreen_toggle();
    assert(focus[1] == 'o' && t[1] == 'u' && pin[1] == 'i' && float[1] == 'o');
    assert(focus != t && pin != t && float != t);
    assert(focus[0] == 'f' && pin[0] == 'p');
    assert(focus != pin);
    let e = Seq::<Seq<char>>::empty();
    assert(toggles(e) == 0);
    let a0 = seq![focus];
    assert(a0.drop_last() =~= e);
    assert(toggles(a0) == 0);
    let a1 = seq![focus, t];
    assert(a1.drop_last() =~= a0);
    assert(toggles(a1) == 1);
    let b1 = seq![focus, pin];
    assert(b1.drop_last() =~= a0);
    assert(toggles(b1) == 0);
    let b2 = seq![focus, pin, t];
    assert(b2.drop_last() =~= b1);
    assert(toggles(b2) == 1);
    let p0 = seq![pin];
    assert(p0.drop_last() =~= e);
    assert(toggles(p0) == 0);
    let f0 = seq![float];
    assert(f0.drop_last() =~= e);
    assert(toggles(f0) == 0);
    let f1 = seq![float, pin];
    assert(f1.drop_last() =~= f0);
    assert(toggles(f1) == 0);
    if !w.pinned {
        assert(a1[0] != pin && a1[1] != pin);
        assert(!a1.contains(pin));
    } else {
        assert(b2[1] == pin);
    }
}

/// Whether the pin is restored after leaving fullscreen: the pattern asks
/// for it, the window was pinned, or it is a Picture-in-Picture window.
pub fn should_restore_pin(w: &MediaWindow) -> (r: bool)
    ensures
        r == (w.always_pin || w.pinned || pip_title(w.title@)),
{
    w.always_pin || w.pinned || is_pip_title(w.title.as_str())
}

// ---------------------------------------------------------------------------
// Exit loop
// ---------------------------------------------------------------------------
/// One step of the exit loop.
#[derive(Debug)]
pub enum ExitStep {
    /// Stop: the window is out of fullscreen, or its state cannot be read.
    Stop,
    /// Send `actions` as one batch (after a fresh suppression stamp), then
    /// wait; `is_final` marks the last attempt.
    Retry { attempt: u8, actions: Vec<String>, is_final: bool },
}

/// The exit loop's decision at `attempt` (attempts made so far) given the
/// fullscreen state read back (`None` when the read failed): stop when the
/// window is out or unreadable; otherwise refocus and toggle again, three
/// times in a row on the final attempt to unstick a wedged compositor.
pub open spec fn exit_step_spec(addr: Seq<char>, attempt: u8, observed: Option<u8>) -> Option<
    (u8, Seq<Seq<char>>, bool),
> {
    match observed {
        None => None,
        Some(s) => if s == 0 {
            None
        } else {
            let next = (attempt + 1) as u8;
            let focus = "focuswindow address:"@ + addr;
            if next == MAX_FULLSCREEN_EXIT_ATTEMPTS {
                Some(
                    (
                        next,
                        seq![focus, fullscreen_toggle(), fullscreen_toggle(), fullscreen_toggle()],
                        true,
                    ),
                )
            } else {
                Some((next, seq![focus, fullscreen_toggle()], false))
            }
        },
    }
}

/// The model of an exit step.
pub open spec fn exit_step_view(s: ExitStep) -> Option<(u8, Seq<Seq<char>>, bool)> {
    match s {
        ExitStep::Stop => None,
        ExitStep::Retry { attempt, actions, is_final } => Some(
            (attempt, string_views(actions@), is_final),
        ),
    }
}

/// Decide the next step of the fullscreen-exit loop (see
/// [`exit_step_spec`]). The loop runs while fewer than
/// [`MAX_FULLSCREEN_EXIT_ATTEMPTS`] attempts were made.
pub fn fullscreen_exit_step(addr: &str, attempt: u8, observed: Option<u8>) -> (r: ExitStep)
    requires
        attempt < MAX_FULLSCREEN_EXIT_ATTEMPTS,
    ensures
        exit_step_view(r) == exit_step_spec(addr@, attempt, observed),
{
    let s = match observed {
        None => {
            return ExitStep::Stop;
        },
        Some(s) => s,
    };
    if s == 0 {
        return ExitStep::Stop;
    }
    let next = attempt + 1;
    let is_final = next == MAX_FULLSCREEN_EXIT_ATTEMPTS;
    let mut actions: Vec<String> = Vec::new();
    actions.push(focus_window_action(addr));
    actions.push(string_of("fullscreen 0"));
    if is_final {
        actions.push(string_of("fullscreen 0"));
        actions.push(string_of("fullscreen 0"));
        assert(string_views(actions@) =~= seq![
            "focuswindow address:"@ + addr@,
            fullscreen_toggle(),
            fullscreen_toggle(),
            fullscreen_toggle(),
        ]);
    } else {
        assert(string_views(actions@) =~= seq!["focuswindow address:"@ + addr@, fullscreen_toggle()]);
    }
    ExitStep::Retry { attempt: next, actions, is_final }
}

/// Whether the exit loop goes on after sending a retry batch: only when the
/// batch was dispatched. A failed retry ends the loop without an error; the
/// restore steps still follow.
pub fn exit_continues_after_retry(dispatched: bool) -> (r: bool)
    ensures
        r == dispatched,
{
    dispatched
}

/// The number of `fullscreen 0` toggles in a batch.
pub open spec fn toggles(actions: Seq<Seq<char>>) -> nat
    decreases actions.len(),
{
    if actions.len() == 0 {
        0
    } else {
        toggles(actions.drop_last()) + if actions.last() == fullscreen_toggle() {
            1nat
        } else {
            0nat
        }
    }
}

/// Every retry of the exit loop advances the attempt count by one, stays
/// within the attempt limit, and toggles fullscreen an odd number of times
/// (once, or three times on the final attempt), so each retry flips the
/// state; the loop therefore makes at most three retries.
pub proof fn lemma_exit_retry_flips(addr: Seq<char>, attempt: u8, observed: Option<u8>)
    requires
        attempt < MAX_FULLSCREEN_EXIT_ATTEMPTS,
    ensures
        match exit_step_spec(addr, attempt, observed) {
            Some((next, actions, is_final)) => {
                &&& next == attempt + 1
                &&& next <= MAX_FULLSCREEN_EXIT_ATTEMPTS
                &&& is_final == (next == MAX_FULLSCREEN_EXIT_ATTEMPTS)
                &&& toggles(actions) % 2 == 1
            },
            None => observed is None || observed == Some(0u8),
        },
{
    reveal_strlit("fullscreen 0");
    reveal_strlit("focuswindow address:");
    let focus = "focuswindow address:"@ + addr;
    let t = fullscreen_toggle();
    assert(focus[1] == 'o');
    assert(t[1] == 'u');
    assert(focus != t);
    let a0 = seq![focus];
    assert(a0.drop_last() =~= Seq::<Seq<char>>::empty());
    assert(toggles(Seq::<Seq<char>>::empty()) == 0);
    assert(a0.last() == focus);
    assert(toggles(a0) == 0);
    let a1 = seq![focus, t];
    assert(a1.drop_last() =~= a0);
    assert(toggles(a1) == 1);
    let a2 = seq![focus, t, t];
    assert(a2.drop_last() =~= a1);
    assert(toggles(a2) == 2);
    let a3 = seq![focus, t, t, t];
    assert(a3.drop_last() =~= a2);
    assert(toggles(a3) == 3);
}

// ---------------------------------------------------------------------------
// Restore after exit
// ---------------------------------------------------------------------------
/// What is restored once fullscreen has been left, from a fresh client
/// snapshot.
#[derive(Debug)]
pub struct RestorePlan {
    /// `false` when the address now belongs to a window of another class
    /// (the media window died and its address was reused): nothing is
    /// restored.
    pub proceed: bool,
    /// Re-pin the window (a failure is only logged).
    pub restore_pin: bool,
    /// Move it back to its default corner (a failure is only logged).
    pub reposition: bool,
    /// Give focus back to this window (a failure is only logged).
    pub focus_target: Option<String>,
    /// After the restore steps, clear the suppression stamp and run one
    /// avoid pass on fresh state (the daemon would debounce the events the
    /// restore emitted). When nothing is restored the stamp is only cleared.
    pub avoid_after: bool,
}

/// The restore steps for media window `w` (see [`RestorePlan`]).
pub open spec fn restore_plan_spec(
    w: MediaWindow,
    restore_pin: bool,
    prev: Option<Seq<char>>,
    fresh: Seq<Client>,
) -> (bool, bool, bool, Option<Seq<char>>) {
    let fi = client_with_address(fresh, w.address@);
    if fi is Some && fresh[fi->0].class@ != w.class@ {
        (false, false, false, None)
    } else {
        let pinned_now = match fi {
            Some(i) => fresh[i].pinned,
            None => false,
        };
        (
            true,
            restore_pin && !pinned_now,
            fi is Some,
            match prev {
                Some(p) => focus_target_spec(fresh, w.address@, p),
                None => None,
            },
        )
    }
}

/// Plan the restore steps after leaving fullscreen.
pub fn restore_after_exit_plan(
    w: &MediaWindow,
    restore_pin: bool,
    previous_focus: Option<&str>,
    fresh: &[Client],
) -> (r: RestorePlan)
    ensures
        (r.proceed, r.restore_pin, r.reposition, match r.focus_target {
            Some(t) => Some(t@),
            None => None,
        }) == restore_plan_spec(
            *w,
            restore_pin,
            match previous_focus {
                Some(p) => Some(p@),
                None => None,
            },
            fresh@,
        ),
        r.avoid_after == r.proceed,
{
    let a = str_chars(w.address.as_str());
    let fi = first_address_index(fresh, a.as_slice());
    proof {
        lemma_first_address(fresh@, w.address@, fi);
    }
    match fi {
        Some(i) => {
            let fc = str_chars(fresh[i].class.as_str());
            let oc = str_chars(w.class.as_str());
            if !chars_eq(fc.as_slice(), oc.as_slice()) {
                return RestorePlan {
                    proceed: false,
                    restore_pin: false,
                    reposition: false,
                    focus_target: None,
                    avoid_after: false,
                };
            }
        },
        None => {},
    }
    let pinned_now = match fi {
        Some(i) => fresh[i].pinned,
        None => false,
    };
    let focus_target = match previous_focus {
        Some(p) => find_valid_focus_target(fresh, w.address.as_str(), p),
        None => None,
    };
    proof {
        match previous_focus {
            Some(p) => {
                match focus_target_spec(fresh@, w.address@, p@) {
                    Some(t) => {
                        assert(focus_target is Some && focus_target->0@ == t);
                    },
                    None => {
                        assert(focus_target is None);
                    },
                }
            },
            None => {},
        }
    }
    RestorePlan {
        proceed: true,
        restore_pin: restore_pin && !pinned_now,
        reposition: fi.is_some(),
        focus_target,
        avoid_after: true,
    }
}

} // verus!
