//! The avoider's decisions: given one snapshot of the windows, which media
//! windows move where, and whose focus is restored afterwards.
//!
//! Five situations are told apart:
//!
//! 1. single workspace (at most one non-media window), non-media focused:
//!    media windows go to their primary corner, or the secondary one when a
//!    floating focused window is in the way;
//! 2. single workspace, media focused (mouseover): the media window toggles
//!    between primary and secondary corner, and focus returns to the window
//!    that had it before;
//! 3. several windows, media focused: the media window moves away from the
//!    peers it covers, if its new place is clear, and focus returns;
//! 4. several windows, non-media focused: each media window covering it
//!    moves to the opposite side, if that side is clear;
//! 5. a non-media window is fullscreen: every media window moves away.
//!
//! The plan is carried out by the caller: each move is preceded by a fresh
//! suppression stamp and dispatched as one move+resize batch; a failing
//! dispatch ends the run; the focus restore is best-effort.
use vstd::prelude::*;

use crate::config::{is_first_override, Config, PositionOverride};
use crate::geometry::{overlap_spec, within_tolerance, within_tolerance_spec, Rect};
use crate::hyprland::Client;
use crate::position::{
    effective_dimensions, effective_dims, effective_position, effective_position_or,
    resolve_effective_position, resolve_position_or, shift_fits, MinifyState,
};
use crate::text::chars_eq;
use crate::window::MediaWindow;

verus! {

/// Primary and secondary corner for the mouseover toggle, with an optional
/// size override.
#[derive(Copy, Clone, Debug, PartialEq, Eq, Structural)]
pub struct PositionPair {
    pub primary_x: i32,
    pub primary_y: i32,
    pub secondary_x: i32,
    pub secondary_y: i32,
    pub width: Option<i32>,
    pub height: Option<i32>,
}

/// One planned move: the window and its new position and size.
#[derive(Debug)]
pub struct WindowMove {
    pub address: String,
    pub x: i32,
    pub y: i32,
    pub width: i32,
    pub height: i32,
}

/// The model of a move: address, x, y, width, height.
pub type MoveView = (Seq<char>, i32, i32, i32, i32);

impl WindowMove {
    pub open spec fn view(&self) -> MoveView {
        (self.address@, self.x, self.y, self.width, self.height)
    }
}

/// The models of a list of moves.
pub open spec fn views(ms: Seq<WindowMove>) -> Seq<MoveView> {
    ms.map_values(|mv: WindowMove| mv.view())
}

/// What one avoider run does: the moves, in order, then (optionally) the
/// window whose focus is restored.
#[derive(Debug)]
pub struct AvoidPlan {
    pub moves: Vec<WindowMove>,
    pub restore_focus: Option<String>,
}

/// The model of a plan.
pub open spec fn plan_view(p: AvoidPlan) -> (Seq<MoveView>, Option<Seq<char>>) {
    (
        views(p.moves@),
        match p.restore_focus {
            Some(a) => Some(a@),
            None => None,
        },
    )
}

/// The empty plan.
pub open spec fn no_plan() -> (Seq<MoveView>, Option<Seq<char>>) {
    (seq![], None)
}

// ---------------------------------------------------------------------------
// Position pair
// ---------------------------------------------------------------------------
/// The first override that applies to a focused window, if any.
pub open spec fn first_override(
    os: Seq<PositionOverride>,
    class: Seq<char>,
    title: Seq<char>,
) -> Option<int> {
    if exists|i: int| is_first_override(os, class, title, i) {
        Some(choose|i: int| is_first_override(os, class, title, i))
    } else {
        None
    }
}

proof fn lemma_first_override_unique(
    os: Seq<PositionOverride>,
    class: Seq<char>,
    title: Seq<char>,
    i: int,
    k: int,
)
    requires
        is_first_override(os, class, title, i),
        is_first_override(os, class, title, k),
    ensures
        i == k,
{
}

/// An override's position name, resolved for the mode, or `default`.
pub open spec fn override_or(
    c: Config,
    m: MinifyState,
    field: Option<String>,
    default: i32,
) -> i32 {
    match field {
        Some(s) => match effective_position(c.positions, m, s@) {
            Some(v) => v,
            None => default,
        },
        None => default,
    }
}

/// Primary and secondary positions for a focused window of this class and
/// title: the configured defaults (resolved for the mode), each replaced by
/// the first applicable override's own setting where it has one.
pub open spec fn position_pair_spec(
    c: Config,
    m: MinifyState,
    class: Seq<char>,
    title: Seq<char>,
) -> PositionPair {
    let p = c.positions;
    let q = c.positioning;
    let dpx = effective_position_or(p, m, q.default_x@, p.x_right);
    let dpy = effective_position_or(p, m, q.default_y@, p.y_bottom);
    let dsx = effective_position_or(p, m, q.secondary_x@, p.x_left);
    let dsy = effective_position_or(p, m, q.secondary_y@, p.y_bottom);
    match first_override(q.overrides@, class, title) {
        Some(i) => {
            let o = q.overrides@[i];
            PositionPair {
                primary_x: override_or(c, m, o.pref_x, dpx),
                primary_y: override_or(c, m, o.pref_y, dpy),
                secondary_x: override_or(c, m, o.secondary_x, dsx),
                secondary_y: override_or(c, m, o.secondary_y, dsy),
                width: o.pref_width,
                height: o.pref_height,
            }
        },
        None => PositionPair {
            primary_x: dpx,
            primary_y: dpy,
            secondary_x: dsx,
            secondary_y: dsy,
            width: None,
            height: None,
        },
    }
}

fn override_field_or(config: &Config, field: &Option<String>, default: i32, m: MinifyState) -> (r:
    i32)
    requires
        shift_fits(config.positions, m),
    ensures
        r == override_or(*config, m, *field, default),
{
    match field {
        Some(s) => match resolve_effective_position(config, s.as_str(), m) {
            Some(v) => v,
            None => default,
        },
        None => default,
    }
}

/// Primary + secondary positions for the mouseover toggle, applying any
/// focused-class / title override from the configuration.
pub fn get_position_pair(
    config: &Config,
    focused_class: &str,
    focused_title: &str,
    m: MinifyState,
) -> (r: PositionPair)
    requires
        shift_fits(config.positions, m),
    ensures
        r == position_pair_spec(*config, m, focused_class@, focused_title@),
{
    let positions = &config.positions;
    let positioning = &config.positioning;
    let dpx = resolve_position_or(config, positioning.default_x.as_str(), positions.x_right, m);
    let dpy = resolve_position_or(config, positioning.default_y.as_str(), positions.y_bottom, m);
    let dsx = resolve_position_or(config, positioning.secondary_x.as_str(), positions.x_left, m);
    let dsy = resolve_position_or(config, positioning.secondary_y.as_str(), positions.y_bottom, m);
    match positioning.get_override(focused_class, focused_title) {
        Some(o) => {
            proof {
                let i = choose|i: int|
                    is_first_override(positioning.overrides@, focused_class@, focused_title@, i)
                        && positioning.overrides@[i] == *o;
                let k = first_override(positioning.overrides@, focused_class@, focused_title@)->0;
                lemma_first_override_unique(
                    positioning.overrides@,
                    focused_class@,
                    focused_title@,
                    i,
                    k,
                );
            }
            PositionPair {
                primary_x: override_field_or(config, &o.pref_x, dpx, m),
                primary_y: override_field_or(config, &o.pref_y, dpy, m),
                secondary_x: override_field_or(config, &o.secondary_x, dsx, m),
                secondary_y: override_field_or(config, &o.secondary_y, dsy, m),
                width: o.pref_width,
                height: o.pref_height,
            }
        },
        None => {
            proof {
                if exists|i: int|
                    is_first_override(
                        positioning.overrides@,
                        focused_class@,
                        focused_title@,
                        i,
                    ) {
                    let i = choose|i: int|
                        is_first_override(
                            positioning.overrides@,
                            focused_class@,
                            focused_title@,
                            i,
                        );
                    assert(crate::config::override_applies(
                        positioning.overrides@[i],
                        focused_class@,
                        focused_title@,
                    ));
                }
            }
            PositionPair {
                primary_x: dpx,
                primary_y: dpy,
                secondary_x: dsx,
                secondary_y: dsy,
                width: None,
                height: None,
            }
        },
    }
}

// ---------------------------------------------------------------------------
// Target position
// ---------------------------------------------------------------------------
/// Integer division rounding toward zero, as Rust's `/` does.
pub open spec fn div_trunc(a: int, b: int) -> int {
    if a >= 0 {
        a / b
    } else {
        -((-a) / b)
    }
}

/// Where a media window at `(media_x, media_y)` goes to get out of the way
/// of a focused window `focus_w` wide. A focused window at least the
/// wide-window threshold (percent of the available width, capped at 100)
/// wide makes the media window change row: top if it is in the lower half,
/// else bottom. Otherwise it changes column: right if its centre is in the
/// left half (or on the centre line), else left.
pub open spec fn target_position_spec(
    c: Config,
    m: MinifyState,
    media_x: i32,
    media_y: i32,
    focus_w: i32,
) -> (i32, i32) {
    let p = c.positions;
    let x_left = effective_position_or(p, m, "x_left"@, p.x_left);
    let x_right = effective_position_or(p, m, "x_right"@, p.x_right);
    let y_top = effective_position_or(p, m, "y_top"@, p.y_top);
    let y_bottom = effective_position_or(p, m, "y_bottom"@, p.y_bottom);
    let mw = effective_dims(p, m).0 as int;
    let available = x_right + mw - x_left;
    let center_x = x_left + div_trunc(x_right - x_left, 2);
    let center_y = y_top + div_trunc(y_bottom - y_top, 2);
    let t = c.positioning.wide_window_threshold as int;
    let threshold = if t < 100 {
        t
    } else {
        100
    };
    let cutoff = div_trunc(available * threshold, 100);
    if focus_w >= cutoff {
        (media_x, if media_y >= center_y {
            y_top
        } else {
            y_bottom
        })
    } else {
        let media_center = media_x + div_trunc(mw, 2);
        (if media_center <= center_x {
            x_right
        } else {
            x_left
        }, media_y)
    }
}

/// Where a media window goes to get out of the way, in terms of the
/// configured corners (right and bottom shifted in minified mode): a
/// focused window at least the wide cutoff wide sends the media window to
/// the other row, the bottom edge from the upper half and the top edge
/// from the lower half, keeping its column; a narrower one sends it to the
/// other column, the right edge when its centre is in the left half (or on
/// the centre line) and the left edge otherwise, keeping its row. With the
/// top edge above the bottom one, the new row lies in the opposite half.
pub proof fn lemma_target_changes_row_or_column(
    c: Config,
    m: MinifyState,
    media_x: i32,
    media_y: i32,
    focus_w: i32,
)
    requires
        shift_fits(c.positions, m),
    ensures
        ({
            let p = c.positions;
            let dx: int = if m.minified {
                p.width - m.scaled_width
            } else {
                0
            };
            let dy: int = if m.minified {
                p.height - m.scaled_height
            } else {
                0
            };
            let xl = p.x_left as int;
            let xr = p.x_right + dx;
            let yt = p.y_top as int;
            let yb = p.y_bottom + dy;
            let mw = effective_dims(p, m).0 as int;
            let center_x = xl + div_trunc(xr - xl, 2);
            let center_y = yt + div_trunc(yb - yt, 2);
            let pct: int = if c.positioning.wide_window_threshold < 100 {
                c.positioning.wide_window_threshold as int
            } else {
                100
            };
            let cutoff = div_trunc((xr + mw - xl) * pct, 100);
            let r = target_position_spec(c, m, media_x, media_y, focus_w);
            &&& focus_w >= cutoff ==> {
                &&& r.0 == media_x
                &&& (media_y < center_y ==> r.1 == yb)
                &&& (media_y >= center_y ==> r.1 == yt)
                &&& (yt <= yb && media_y < center_y ==> r.1 >= center_y)
                &&& (yt <= yb && media_y >= center_y ==> r.1 <= center_y)
            }
            &&& focus_w < cutoff ==> {
                &&& r.1 == media_y
                &&& (media_x + div_trunc(mw, 2) <= center_x ==> r.0 == xr)
                &&& (media_x + div_trunc(mw, 2) > center_x ==> r.0 == xl)
            }
        }),
{
    crate::position::lemma_position_names_distinct();
    let p = c.positions;
    let dy: int = if m.minified {
        p.height - m.scaled_height
    } else {
        0
    };
    let yt = p.y_top as int;
    let yb = p.y_bottom + dy;
    assert(yt <= yb ==> 0 <= div_trunc(yb - yt, 2) <= yb - yt);
}

/// Calculate the target position that avoids the focused window (see
/// [`target_position_spec`]). All arithmetic is done in `i64`.
pub fn calculate_target_position(
    config: &Config,
    media_x: i32,
    media_y: i32,
    focus_w: i32,
    m: MinifyState,
) -> (r: (i32, i32))
    requires
        shift_fits(config.positions, m),
    ensures
        r == target_position_spec(*config, m, media_x, media_y, focus_w),
{
    let positions = &config.positions;
    let x_left = resolve_position_or(config, "x_left", positions.x_left, m);
    let x_right = resolve_position_or(config, "x_right", positions.x_right, m);
    let y_top = resolve_position_or(config, "y_top", positions.y_top, m);
    let y_bottom = resolve_position_or(config, "y_bottom", positions.y_bottom, m);
    let (media_width, _) = effective_dimensions(config, m);
    let xl = x_left as i64;
    let xr = x_right as i64;
    let yt = y_top as i64;
    let yb = y_bottom as i64;
    let mw = media_width as i64;
    let available = xr + mw - xl;
    let center_x = xl + (xr - xl) / 2;
    let center_y = yt + (yb - yt) / 2;
    let t = config.positioning.wide_window_threshold;
    let threshold: i64 = if t < 100 {
        t as i64
    } else {
        100
    };
    assert(-6442450944 <= available <= 6442450944);
    assert(-644245094400 <= available * threshold <= 644245094400) by (nonlinear_arith)
        requires
            -6442450944 <= available <= 6442450944,
            0 <= threshold <= 100,
    ;
    let cutoff = (available * threshold) / 100;
    if focus_w as i64 >= cutoff {
        let target_y = if media_y as i64 >= center_y {
            y_top
        } else {
            y_bottom
        };
        (media_x, target_y)
    } else {
        let media_center = media_x as i64 + mw / 2;
        let target_x = if media_center <= center_x {
            x_right
        } else {
            x_left
        };
        (target_x, media_y)
    }
}

// ---------------------------------------------------------------------------
// Window counting and the focused window
// ---------------------------------------------------------------------------
/// Visible non-media windows among the first `n` clients on workspace `ws`
/// of monitor `mon`.
pub open spec fn count_non_media(
    clients: Seq<Client>,
    is_media: Seq<bool>,
    ws: i32,
    mon: i32,
    n: int,
) -> nat
    decreases n,
{
    if n <= 0 {
        0
    } else {
        count_non_media(clients, is_media, ws, mon, n - 1) + if clients[n - 1].workspace.id == ws
            && clients[n - 1].monitor == mon && clients[n - 1].visible() && !is_media[n - 1] {
            1nat
        } else {
            0nat
        }
    }
}

/// Count the visible non-media windows on `workspace_id` and `monitor_id`
/// (the focused window included). `is_media[i]` tells whether the window
/// matcher recognises `clients[i]` as a media window.
pub fn count_non_media_windows(
    clients: &[Client],
    is_media: &[bool],
    workspace_id: i32,
    monitor_id: i32,
) -> (r: usize)
    requires
        is_media@.len() == clients@.len(),
    ensures
        r == count_non_media(clients@, is_media@, workspace_id, monitor_id, clients@.len() as int),
{
    let mut n: usize = 0;
    let mut i: usize = 0;
    while i < clients.len()
        invariant
            i <= clients@.len(),
            is_media@.len() == clients@.len(),
            n == count_non_media(clients@, is_media@, workspace_id, monitor_id, i as int),
            n <= i,
        decreases clients.len() - i,
    {
        let c = &clients[i];
        if c.workspace.id == workspace_id && c.monitor == monitor_id && c.is_visible()
            && !is_media[i] {
            n = n + 1;
        }
        i = i + 1;
    }
    n
}

/// `i` is the first focused client.
pub open spec fn is_first_focused(clients: Seq<Client>, i: int) -> bool {
    0 <= i < clients.len() && clients[i].focused() && forall|j: int|
        0 <= j < i ==> !(#[trigger] clients[j]).focused()
}

/// Index of the focused window: the first with focus history id 0.
pub fn focused_index(clients: &[Client]) -> (r: Option<usize>)
    ensures
        match r {
            Some(i) => is_first_focused(clients@, i as int),
            None => forall|j: int| 0 <= j < clients@.len() ==> !(#[trigger] clients@[j]).focused(),
        },
{
    let mut i: usize = 0;
    while i < clients.len()
        invariant
            i <= clients@.len(),
            forall|j: int| 0 <= j < i ==> !(#[trigger] clients@[j]).focused(),
        decreases clients.len() - i,
    {
        if clients[i].is_focused() {
            return Some(i);
        }
        i = i + 1;
    }
    None
}

/// The focused window's address, from the same client snapshot.
pub fn find_focused_address(clients: &[Client]) -> (r: Option<&str>)
    ensures
        match r {
            Some(a) => exists|i: int| is_first_focused(clients@, i) && a@ == clients@[i].address@,
            None => forall|j: int| 0 <= j < clients@.len() ==> !(#[trigger] clients@[j]).focused(),
        },
{
    match focused_index(clients) {
        Some(i) => Some(clients[i].address.as_str()),
        None => None,
    }
}

/// Index of the first client with address `addr`.
pub open spec fn is_first_with_address(clients: Seq<Client>, addr: Seq<char>, i: int) -> bool {
    0 <= i < clients.len() && clients[i].address@ == addr && forall|j: int|
        0 <= j < i ==> (#[trigger] clients[j]).address@ != addr
}

/// The first client with address `addr`, if any.
pub open spec fn client_with_address(clients: Seq<Client>, addr: Seq<char>) -> Option<int> {
    if exists|i: int| is_first_with_address(clients, addr, i) {
        Some(choose|i: int| is_first_with_address(clients, addr, i))
    } else {
        None
    }
}

fn index_of_address(clients: &[Client], addr: &str) -> (r: Option<usize>)
    ensures
        match r {
            Some(i) => is_first_with_address(clients@, addr@, i as int),
            None => forall|j: int|
                0 <= j < clients@.len() ==> (#[trigger] clients@[j]).address@ != addr@,
        },
{
    let a = crate::text::str_chars(addr);
    let mut i: usize = 0;
    while i < clients.len()
        invariant
            i <= clients@.len(),
            a@ == addr@,
            forall|j: int| 0 <= j < i ==> (#[trigger] clients@[j]).address@ != addr@,
        decreases clients.len() - i,
    {
        let c = crate::text::str_chars(clients[i].address.as_str());
        if chars_eq(c.as_slice(), a.as_slice()) {
            return Some(i);
        }
        i = i + 1;
    }
    None
}

proof fn lemma_address_index(clients: Seq<Client>, addr: Seq<char>, i: int)
    requires
        is_first_with_address(clients, addr, i),
    ensures
        client_with_address(clients, addr) == Some(i),
{
    let k = choose|k: int| is_first_with_address(clients, addr, k);
    if k < i {
        assert(clients[k].address@ != addr);
    } else if i < k {
        assert(clients[i].address@ != addr);
    }
}

// ---------------------------------------------------------------------------
// Per-case plans
// ---------------------------------------------------------------------------
/// `r` with `v` appended when present.
pub open spec fn push_opt(r: Seq<MoveView>, v: Option<MoveView>) -> Seq<MoveView> {
    match v {
        Some(x) => r.push(x),
        None => r,
    }
}

/// The rectangle of a client.
pub open spec fn client_rect(c: Client) -> Rect {
    Rect { x: c.at[0], y: c.at[1], w: c.size[0], h: c.size[1] }
}

/// The rectangle of a media window.
pub open spec fn media_rect(w: MediaWindow) -> Rect {
    Rect { x: w.x, y: w.y, w: w.width, h: w.height }
}

/// The size a move gives: the pair's override where set, else the
/// effective size.
pub open spec fn pair_size(c: Config, m: MinifyState, pair: PositionPair) -> (i32, i32) {
    let d = effective_dims(c.positions, m);
    (
        match pair.width {
            Some(w) => w,
            None => d.0,
        },
        match pair.height {
            Some(h) => h,
            None => d.1,
        },
    )
}

/// Case 1, one window: stay if already at the primary corner and not in
/// the way of a floating focused window; else move to the primary corner,
/// or to the secondary one when the primary place (current rectangle if
/// already there, the would-be rectangle otherwise) overlaps a floating
/// focused window.
pub open spec fn primary_move(
    c: Config,
    m: MinifyState,
    focused: Client,
    pair: PositionPair,
    w: MediaWindow,
) -> Option<MoveView> {
    let tol = c.positioning.position_tolerance as int;
    let at_primary = within_tolerance_spec(w.x as int, pair.primary_x as int, tol)
        && within_tolerance_spec(w.y as int, pair.primary_y as int, tol);
    let size = pair_size(c, m, pair);
    let candidate = if at_primary {
        media_rect(w)
    } else {
        Rect { x: pair.primary_x, y: pair.primary_y, w: size.0, h: size.1 }
    };
    let clashes = focused.floating && overlap_spec(candidate, client_rect(focused));
    if clashes {
        Some((w.address@, pair.secondary_x, pair.secondary_y, size.0, size.1))
    } else if !at_primary {
        Some((w.address@, pair.primary_x, pair.primary_y, size.0, size.1))
    } else {
        None
    }
}

/// Case 4, one window: if it overlaps the focused window, move it to its
/// target unless the target overlaps the focused window too.
pub open spec fn overlap_move(c: Config, m: MinifyState, focused: Client, w: MediaWindow) -> Option<
    MoveView,
> {
    let fr = client_rect(focused);
    if !overlap_spec(media_rect(w), fr) {
        None
    } else {
        let t = target_position_spec(c, m, w.x, w.y, focused.size[0]);
        let d = effective_dims(c.positions, m);
        if overlap_spec(Rect { x: t.0, y: t.1, w: d.0, h: d.1 }, fr) {
            None
        } else {
            Some((w.address@, t.0, t.1, d.0, d.1))
        }
    }
}

/// Case 5, one window: move it to its target.
pub open spec fn fullscreen_move(c: Config, m: MinifyState, focused: Client, w: MediaWindow) -> Option<
    MoveView,
> {
    let t = target_position_spec(c, m, w.x, w.y, focused.size[0]);
    let d = effective_dims(c.positions, m);
    Some((w.address@, t.0, t.1, d.0, d.1))
}

/// Which per-window rule a loop applies.
pub enum LoopRule {
    Primary(PositionPair),
    Overlap,
    Fullscreen,
}

/// The per-window move under `rule`.
pub open spec fn rule_move(
    c: Config,
    m: MinifyState,
    focused: Client,
    rule: LoopRule,
    w: MediaWindow,
) -> Option<MoveView> {
    match rule {
        LoopRule::Primary(pair) => primary_move(c, m, focused, pair, w),
        LoopRule::Overlap => overlap_move(c, m, focused, w),
        LoopRule::Fullscreen => fullscreen_move(c, m, focused, w),
    }
}

/// The moves `rule` yields for the first `n` media windows, skipping
/// fullscreen ones, in order.
pub open spec fn loop_moves(
    c: Config,
    m: MinifyState,
    focused: Client,
    rule: LoopRule,
    media: Seq<MediaWindow>,
    n: int,
) -> Seq<MoveView>
    decreases n,
{
    if n <= 0 {
        seq![]
    } else {
        let r = loop_moves(c, m, focused, rule, media, n - 1);
        if media[n - 1].fullscreen == 0 {
            push_opt(r, rule_move(c, m, focused, rule, media[n - 1]))
        } else {
            r
        }
    }
}

/// Case 2: toggle the focused media window between the pair positions
/// (the pair chosen for the previously focused window), then restore focus
/// to that window.
pub open spec fn toggle_plan(
    c: Config,
    m: MinifyState,
    focused: Client,
    prev: Client,
) -> (Seq<MoveView>, Option<Seq<char>>) {
    let pair = position_pair_spec(c, m, prev.class@, prev.title@);
    let tol = c.positioning.position_tolerance as int;
    let at_primary = within_tolerance_spec(focused.at[0] as int, pair.primary_x as int, tol)
        && within_tolerance_spec(focused.at[1] as int, pair.primary_y as int, tol);
    let tx = if at_primary {
        pair.secondary_x
    } else {
        pair.primary_x
    };
    let ty = if at_primary {
        pair.secondary_y
    } else {
        pair.primary_y
    };
    let size = pair_size(c, m, pair);
    let moves = if !within_tolerance_spec(focused.at[0] as int, tx as int, tol)
        || !within_tolerance_spec(focused.at[1] as int, ty as int, tol) {
        seq![(focused.address@, tx, ty, size.0, size.1)]
    } else {
        seq![]
    };
    (moves, Some(prev.address@))
}

/// The mouseover toggle swaps the focused media window between the two
/// corners of the pair chosen for the previously focused window, and gives
/// focus back to that window: away from the primary corner (beyond the
/// tolerance on either axis) it moves to the primary corner; at the
/// primary corner it moves to the secondary one, unless that is within the
/// tolerance of where it already is. So it stays put only when both
/// corners lie within twice the tolerance of each other.
pub proof fn lemma_toggle_swaps_corners(c: Config, m: MinifyState, focused: Client, prev: Client)
    ensures
        ({
            let pair = position_pair_spec(c, m, prev.class@, prev.title@);
            let tol = c.positioning.position_tolerance as int;
            let fx = focused.at[0] as int;
            let fy = focused.at[1] as int;
            let near_primary = -tol <= fx - pair.primary_x <= tol && -tol <= fy - pair.primary_y
                <= tol;
            let near_secondary = -tol <= fx - pair.secondary_x <= tol && -tol <= fy
                - pair.secondary_y <= tol;
            let size = pair_size(c, m, pair);
            let (moves, back) = toggle_plan(c, m, focused, prev);
            &&& back == Some(prev.address@)
            &&& !near_primary ==> moves == seq![
                (focused.address@, pair.primary_x, pair.primary_y, size.0, size.1),
            ]
            &&& near_primary && !near_secondary ==> moves == seq![
                (focused.address@, pair.secondary_x, pair.secondary_y, size.0, size.1),
            ]
            &&& near_primary && near_secondary ==> moves.len() == 0
            &&& moves.len() == 0 ==> -2 * tol <= pair.primary_x - pair.secondary_x <= 2 * tol
                && -2 * tol <= pair.primary_y - pair.secondary_y <= 2 * tol
        }),
{
}

/// `r` overlaps a visible peer of the focused window: another address on
/// the same workspace.
pub open spec fn overlaps_peer(clients: Seq<Client>, focused: Client, r: Rect) -> bool {
    exists|i: int|
        0 <= i < clients.len() && (#[trigger] clients[i]).address@ != focused.address@
            && clients[i].workspace.id == focused.workspace.id && clients[i].visible()
            && overlap_spec(r, client_rect(clients[i]))
}

/// Case 3: when the focused media window covers a peer, move it to its
/// target if that place is clear of peers, then restore focus to the
/// previously focused window (if known).
pub open spec fn mouseover_geometry_plan(
    c: Config,
    m: MinifyState,
    clients: Seq<Client>,
    focused: Client,
    prev: Option<Seq<char>>,
) -> (Seq<MoveView>, Option<Seq<char>>) {
    if !overlaps_peer(clients, focused, client_rect(focused)) {
        no_plan()
    } else {
        let t = target_position_spec(c, m, focused.at[0], focused.at[1], focused.size[0]);
        let d = effective_dims(c.positions, m);
        if overlaps_peer(clients, focused, Rect { x: t.0, y: t.1, w: d.0, h: d.1 }) {
            no_plan()
        } else {
            (seq![(focused.address@, t.0, t.1, d.0, d.1)], prev)
        }
    }
}

/// Some media window is not fullscreen.
pub open spec fn has_windowed(media: Seq<MediaWindow>) -> bool {
    exists|i: int| 0 <= i < media.len() && (#[trigger] media[i]).fullscreen == 0
}

/// The whole avoider decision for the focused window `clients[f]`.
/// `is_media[i]` says whether `clients[i]` is a media window, `media` are
/// the media windows on the focused monitor and `prev` is the previously
/// focused window on the focused workspace, all as the window matcher
/// reports them.
pub open spec fn avoid_plan_spec(
    c: Config,
    clients: Seq<Client>,
    f: int,
    is_media: Seq<bool>,
    media: Seq<MediaWindow>,
    prev: Option<Seq<char>>,
    m: MinifyState,
) -> (Seq<MoveView>, Option<Seq<char>>) {
    let fc = clients[f];
    let single = count_non_media(clients, is_media, fc.workspace.id, fc.monitor, clients.len() as int) <= 1;
    let fm = is_media[f];
    let fs = fc.fullscreen > 0;
    if fc.monitor <= -1 {
        no_plan()
    } else if fm && fs {
        no_plan()
    } else if !has_windowed(media) {
        no_plan()
    } else if single && !fm && fs {
        no_plan()
    } else if single && fm {
        match prev {
            None => no_plan(),
            Some(a) => match client_with_address(clients, a) {
                None => no_plan(),
                Some(i) => toggle_plan(c, m, fc, clients[i]),
            },
        }
    } else if single {
        let pair = position_pair_spec(c, m, fc.class@, fc.title@);
        (loop_moves(c, m, fc, LoopRule::Primary(pair), media, media.len() as int), None)
    } else if fm {
        mouseover_geometry_plan(c, m, clients, fc, prev)
    } else if fs {
        (loop_moves(c, m, fc, LoopRule::Fullscreen, media, media.len() as int), None)
    } else {
        (loop_moves(c, m, fc, LoopRule::Overlap, media, media.len() as int), None)
    }
}

fn make_move(address: &String, x: i32, y: i32, width: i32, height: i32) -> (mv: WindowMove)
    ensures
        mv.view() == (address@, x, y, width, height),
{
    WindowMove { address: address.clone(), x, y, width, height }
}

fn primary_move_for(
    config: &Config,
    focused: &Client,
    pair: PositionPair,
    w: &MediaWindow,
    m: MinifyState,
) -> (r: Option<WindowMove>)
    ensures
        match r {
            Some(mv) => primary_move(*config, m, *focused, pair, *w) == Some(mv.view()),
            None => primary_move(*config, m, *focused, pair, *w) is None,
        },
{
    let tolerance = config.positioning.position_tolerance as i32;
    let (ew, eh) = effective_dimensions(config, m);
    let pair_w = match pair.width {
        Some(v) => v,
        None => ew,
    };
    let pair_h = match pair.height {
        Some(v) => v,
        None => eh,
    };
    let focused_rect = Rect::from_client(focused);
    let at_primary = within_tolerance(w.x, pair.primary_x, tolerance) && within_tolerance(
        w.y,
        pair.primary_y,
        tolerance,
    );
    let primary_clashes = focused.floating && {
        let candidate = if at_primary {
            Rect::from_media(w)
        } else {
            Rect::new(pair.primary_x, pair.primary_y, pair_w, pair_h)
        };
        candidate.overlaps(&focused_rect)
    };
    if primary_clashes {
        Some(make_move(&w.address, pair.secondary_x, pair.secondary_y, pair_w, pair_h))
    } else if !at_primary {
        Some(make_move(&w.address, pair.primary_x, pair.primary_y, pair_w, pair_h))
    } else {
        None
    }
}

fn overlap_move_for(config: &Config, focused: &Client, w: &MediaWindow, m: MinifyState) -> (r:
    Option<WindowMove>)
    requires
        shift_fits(config.positions, m),
    ensures
        match r {
            Some(mv) => overlap_move(*config, m, *focused, *w) == Some(mv.view()),
            None => overlap_move(*config, m, *focused, *w) is None,
        },
{
    let focused_rect = Rect::from_client(focused);
    if !Rect::from_media(w).overlaps(&focused_rect) {
        return None;
    }
    let (tx, ty) = calculate_target_position(config, w.x, w.y, focused.size[0], m);
    let (ew, eh) = effective_dimensions(config, m);
    if Rect::new(tx, ty, ew, eh).overlaps(&focused_rect) {
        None
    } else {
        Some(make_move(&w.address, tx, ty, ew, eh))
    }
}

fn fullscreen_move_for(config: &Config, focused: &Client, w: &MediaWindow, m: MinifyState) -> (r:
    WindowMove)
    requires
        shift_fits(config.positions, m),
    ensures
        fullscreen_move(*config, m, *focused, *w) == Some(r.view()),
{
    let (tx, ty) = calculate_target_position(config, w.x, w.y, focused.size[0], m);
    let (ew, eh) = effective_dimensions(config, m);
    make_move(&w.address, tx, ty, ew, eh)
}

fn rule_move_for(
    config: &Config,
    focused: &Client,
    rule: &LoopRule,
    w: &MediaWindow,
    m: MinifyState,
) -> (r: Option<WindowMove>)
    requires
        shift_fits(config.positions, m),
    ensures
        match r {
            Some(mv) => rule_move(*config, m, *focused, *rule, *w) == Some(mv.view()),
            None => rule_move(*config, m, *focused, *rule, *w) is None,
        },
{
    match rule {
        LoopRule::Primary(pair) => primary_move_for(config, focused, *pair, w, m),
        LoopRule::Overlap => overlap_move_for(config, focused, w, m),
        LoopRule::Fullscreen => Some(fullscreen_move_for(config, focused, w, m)),
    }
}

/// The moves of cases 1, 4 and 5: `rule` applied to every non-fullscreen
/// media window, in order.
pub fn loop_moves_for(
    config: &Config,
    focused: &Client,
    rule: LoopRule,
    media: &[MediaWindow],
    m: MinifyState,
) -> (r: Vec<WindowMove>)
    requires
        shift_fits(config.positions, m),
    ensures
        views(r@) == loop_moves(*config, m, *focused, rule, media@, media@.len() as int),
{
    let mut moves: Vec<WindowMove> = Vec::new();
    let mut i: usize = 0;
    while i < media.len()
        invariant
            i <= media@.len(),
            shift_fits(config.positions, m),
            views(moves@) == loop_moves(*config, m, *focused, rule, media@, i as int),
        decreases media.len() - i,
    {
        if media[i].fullscreen == 0 {
            match rule_move_for(config, focused, &rule, &media[i], m) {
                Some(mv) => {
                    let ghost old_moves = moves@;
                    moves.push(mv);
                    assert(views(moves@) =~= views(old_moves).push(mv.view()));
                },
                None => {},
            }
        }
        i = i + 1;
    }
    moves
}

/// Case 2 plan (see [`toggle_plan`]).
pub fn toggle_plan_for(config: &Config, focused: &Client, prev: &Client, m: MinifyState) -> (r:
    AvoidPlan)
    requires
        shift_fits(config.positions, m),
    ensures
        plan_view(r) == toggle_plan(*config, m, *focused, *prev),
{
    let pair = get_position_pair(config, prev.class.as_str(), prev.title.as_str(), m);
    let tolerance = config.positioning.position_tolerance as i32;
    let at_primary = within_tolerance(focused.at[0], pair.primary_x, tolerance) && within_tolerance(
        focused.at[1],
        pair.primary_y,
        tolerance,
    );
    let (target_x, target_y) = if at_primary {
        (pair.secondary_x, pair.secondary_y)
    } else {
        (pair.primary_x, pair.primary_y)
    };
    let (ew, eh) = effective_dimensions(config, m);
    let w = match pair.width {
        Some(v) => v,
        None => ew,
    };
    let h = match pair.height {
        Some(v) => v,
        None => eh,
    };
    let mut moves: Vec<WindowMove> = Vec::new();
    if !within_tolerance(focused.at[0], target_x, tolerance) || !within_tolerance(
        focused.at[1],
        target_y,
        tolerance,
    ) {
        let mv = make_move(&focused.address, target_x, target_y, w, h);
        moves.push(mv);
        assert(views(moves@) =~= seq![mv.view()]);
    } else {
        assert(views(moves@) =~= Seq::<MoveView>::empty());
    }
    AvoidPlan { moves, restore_focus: Some(prev.address.clone()) }
}

fn peer_overlap(clients: &[Client], focused: &Client, r: Rect) -> (b: bool)
    ensures
        b == overlaps_peer(clients@, *focused, r),
{
    let fa = crate::text::str_chars(focused.address.as_str());
    let mut i: usize = 0;
    while i < clients.len()
        invariant
            i <= clients@.len(),
            fa@ == focused.address@,
            forall|j: int|
                0 <= j < i ==> !((#[trigger] clients@[j]).address@ != focused.address@
                    && clients@[j].workspace.id == focused.workspace.id && clients@[j].visible()
                    && overlap_spec(r, client_rect(clients@[j]))),
        decreases clients.len() - i,
    {
        let c = &clients[i];
        let ca = crate::text::str_chars(c.address.as_str());
        if !chars_eq(ca.as_slice(), fa.as_slice()) && c.workspace.id == focused.workspace.id
            && c.is_visible() && r.overlaps(&Rect::from_client(c)) {
            return true;
        }
        i = i + 1;
    }
    false
}

/// Case 3 plan (see [`mouseover_geometry_plan`]).
pub fn mouseover_geometry_plan_for(
    config: &Config,
    clients: &[Client],
    focused: &Client,
    prev: Option<&str>,
    m: MinifyState,
) -> (r: AvoidPlan)
    requires
        shift_fits(config.positions, m),
    ensures
        plan_view(r) == mouseover_geometry_plan(
            *config,
            m,
            clients@,
            *focused,
            match prev {
                Some(p) => Some(p@),
                None => None,
            },
        ),
{
    let empty = AvoidPlan { moves: Vec::new(), restore_focus: None };
    assert(views(empty.moves@) =~= Seq::<MoveView>::empty());
    if !peer_overlap(clients, focused, Rect::from_client(focused)) {
        return empty;
    }
    let (tx, ty) = calculate_target_position(config, focused.at[0], focused.at[1], focused.size[0], m);
    let (ew, eh) = effective_dimensions(config, m);
    if peer_overlap(clients, focused, Rect::new(tx, ty, ew, eh)) {
        return empty;
    }
    let mut moves: Vec<WindowMove> = Vec::new();
    let mv = make_move(&focused.address, tx, ty, ew, eh);
    moves.push(mv);
    assert(views(moves@) =~= seq![mv.view()]);
    let restore = match prev {
        Some(p) => Some(crate::text::string_of(p)),
        None => None,
    };
    AvoidPlan { moves, restore_focus: restore }
}

fn windowed_exists(media: &[MediaWindow]) -> (r: bool)
    ensures
        r == has_windowed(media@),
{
    let mut i: usize = 0;
    while i < media.len()
        invariant
            i <= media@.len(),
            forall|j: int| 0 <= j < i ==> (#[trigger] media@[j]).fullscreen != 0,
        decreases media.len() - i,
    {
        if media[i].fullscreen == 0 {
            return true;
        }
        i = i + 1;
    }
    false
}

/// Decide what one avoider run does for the focused window
/// `clients[focused]` (see [`avoid_plan_spec`]).
pub fn avoid_plan(
    config: &Config,
    clients: &[Client],
    focused: usize,
    is_media: &[bool],
    media: &[MediaWindow],
    prev_focus: Option<&str>,
    m: MinifyState,
) -> (r: AvoidPlan)
    requires
        focused < clients@.len(),
        is_media@.len() == clients@.len(),
        shift_fits(config.positions, m),
    ensures
        plan_view(r) == avoid_plan_spec(
            *config,
            clients@,
            focused as int,
            is_media@,
            media@,
            match prev_focus {
                Some(p) => Some(p@),
                None => None,
            },
            m,
        ),
{
    let fc = &clients[focused];
    let empty = AvoidPlan { moves: Vec::new(), restore_focus: None };
    assert(views(empty.moves@) =~= Seq::<MoveView>::empty());
    if fc.monitor <= -1 {
        return empty;
    }
    let non_media = count_non_media_windows(clients, is_media, fc.workspace.id, fc.monitor);
    let single = non_media <= 1;
    let fm = is_media[focused];
    let fs = fc.fullscreen > 0;
    if fm && fs {
        return empty;
    }
    if !windowed_exists(media) {
        return empty;
    }
    if single && !fm && fs {
        return empty;
    }
    if single && fm {
        return match prev_focus {
            None => empty,
            Some(a) => match index_of_address(clients, a) {
                None => {
                    proof {
                        if exists|i: int| is_first_with_address(clients@, a@, i) {
                            let i = choose|i: int| is_first_with_address(clients@, a@, i);
                            assert(clients@[i].address@ == a@);
                        }
                    }
                    empty
                },
                Some(i) => {
                    proof {
                        lemma_address_index(clients@, a@, i as int);
                    }
                    toggle_plan_for(config, fc, &clients[i], m)
                },
            },
        };
    }
    if single {
        let pair = get_position_pair(config, fc.class.as_str(), fc.title.as_str(), m);
        let moves = loop_moves_for(config, fc, LoopRule::Primary(pair), media, m);
        return AvoidPlan { moves, restore_focus: None };
    }
    if fm {
        return mouseover_geometry_plan_for(config, clients, fc, prev_focus, m);
    }
    if fs {
        let moves = loop_moves_for(config, fc, LoopRule::Fullscreen, media, m);
        return AvoidPlan { moves, restore_focus: None };
    }
    let moves = loop_moves_for(config, fc, LoopRule::Overlap, media, m);
    AvoidPlan { moves, restore_focus: None }
}

// ---------------------------------------------------------------------------
// Laws
// ---------------------------------------------------------------------------
/// The media window behind a planned move.
pub open spec fn moved_from(
    c: Config,
    m: MinifyState,
    focused: Client,
    rule: LoopRule,
    media: Seq<MediaWindow>,
    n: int,
    mv: MoveView,
) -> bool {
    exists|i: int|
        0 <= i < n && media[i].fullscreen == 0 && #[trigger] rule_move(c, m, focused, rule, media[i])
            == Some(mv)
}

/// Every move of a loop comes from a windowed media window, and a loop
/// moves each window at most once.
proof fn lemma_loop_moves_origin(
    c: Config,
    m: MinifyState,
    focused: Client,
    rule: LoopRule,
    media: Seq<MediaWindow>,
    n: int,
)
    requires
        0 <= n <= media.len(),
    ensures
        loop_moves(c, m, focused, rule, media, n).len() <= n,
        forall|k: int|
            0 <= k < loop_moves(c, m, focused, rule, media, n).len() ==> moved_from(
                c,
                m,
                focused,
                rule,
                media,
                n,
                #[trigger] loop_moves(c, m, focused, rule, media, n)[k],
            ),
    decreases n,
{
    if n > 0 {
        lemma_loop_moves_origin(c, m, focused, rule, media, n - 1);
        let r = loop_moves(c, m, focused, rule, media, n - 1);
        let all = loop_moves(c, m, focused, rule, media, n);
        assert forall|k: int| 0 <= k < all.len() implies moved_from(
            c,
            m,
            focused,
            rule,
            media,
            n,
            #[trigger] all[k],
        ) by {
            if k < r.len() {
                assert(all[k] == r[k]);
                assert(moved_from(c, m, focused, rule, media, n - 1, r[k]));
                let i = choose|i: int|
                    0 <= i < n - 1 && media[i].fullscreen == 0 && #[trigger] rule_move(
                        c,
                        m,
                        focused,
                        rule,
                        media[i],
                    ) == Some(r[k]);
                assert(rule_move(c, m, focused, rule, media[i]) == Some(all[k]));
            } else {
                assert(rule_move(c, m, focused, rule, media[n - 1]) == Some(all[k]));
            }
        }
    }
}

/// With the focused window on the scratchpad (no real monitor), nothing
/// moves and no focus is restored.
pub proof fn lemma_scratchpad_focus_is_left_alone(
    c: Config,
    clients: Seq<Client>,
    f: int,
    is_media: Seq<bool>,
    media: Seq<MediaWindow>,
    prev: Option<Seq<char>>,
    m: MinifyState,
)
    requires
        0 <= f < clients.len(),
        clients[f].monitor <= -1,
    ensures
        avoid_plan_spec(c, clients, f, is_media, media, prev, m) == no_plan(),
{
}

/// A fullscreen media window is never moved: every planned move targets a
/// windowed media window, or the focused media window itself when it is
/// not fullscreen (the mouseover cases). A focused fullscreen media window
/// yields no plan at all.
pub proof fn lemma_fullscreen_media_never_moved(
    c: Config,
    clients: Seq<Client>,
    f: int,
    is_media: Seq<bool>,
    media: Seq<MediaWindow>,
    prev: Option<Seq<char>>,
    m: MinifyState,
)
    requires
        0 <= f < clients.len(),
        is_media.len() == clients.len(),
    ensures
        is_media[f] && clients[f].fullscreen > 0 ==> avoid_plan_spec(
            c,
            clients,
            f,
            is_media,
            media,
            prev,
            m,
        ) == no_plan(),
        ({
            let moves = avoid_plan_spec(c, clients, f, is_media, media, prev, m).0;
            forall|k: int|
                0 <= k < moves.len() ==> ((#[trigger] moves[k]).0 == clients[f].address@
                    && is_media[f] && clients[f].fullscreen == 0) || exists|i: int|
                    0 <= i < media.len() && media[i].fullscreen == 0 && media[i].address@
                        == moves[k].0
        }),
{
    let fc = clients[f];
    let pair = position_pair_spec(c, m, fc.class@, fc.title@);
    let n = media.len() as int;
    lemma_loop_moves_origin(c, m, fc, LoopRule::Primary(pair), media, n);
    lemma_loop_moves_origin(c, m, fc, LoopRule::Fullscreen, media, n);
    lemma_loop_moves_origin(c, m, fc, LoopRule::Overlap, media, n);
    let moves = avoid_plan_spec(c, clients, f, is_media, media, prev, m).0;
    assert forall|k: int| 0 <= k < moves.len() implies ((#[trigger] moves[k]).0
        == clients[f].address@ && is_media[f] && clients[f].fullscreen == 0) || exists|i: int|
        0 <= i < media.len() && media[i].fullscreen == 0 && media[i].address@ == moves[k].0 by {
        let single = count_non_media(clients, is_media, fc.workspace.id, fc.monitor, clients.len() as int)
            <= 1;
        let fm = is_media[f];
        let fs = fc.fullscreen > 0;
        if fc.monitor <= -1 || (fm && fs) || !has_windowed(media) || (single && !fm && fs) {
        } else if single && fm {
        } else if fm {
        } else {
            let rule = if single {
                LoopRule::Primary(pair)
            } else if fs {
                LoopRule::Fullscreen
            } else {
                LoopRule::Overlap
            };
            assert(moves == loop_moves(c, m, fc, rule, media, n));
            assert(moved_from(c, m, fc, rule, media, n, moves[k]));
            let i = choose|i: int|
                0 <= i < n && media[i].fullscreen == 0 && #[trigger] rule_move(
                    c,
                    m,
                    fc,
                    rule,
                    media[i],
                ) == Some(moves[k]);
            assert(media[i].address@ == moves[k].0);
        }
    }
}

/// Moving away never bounces: when several windows share the workspace
/// and a non-media window is focused, every move lands clear of the
/// focused window; when the focused window is a media window, its move
/// lands clear of every peer on the workspace.
pub proof fn lemma_moves_land_clear(
    c: Config,
    clients: Seq<Client>,
    f: int,
    is_media: Seq<bool>,
    media: Seq<MediaWindow>,
    prev: Option<Seq<char>>,
    m: MinifyState,
)
    requires
        0 <= f < clients.len(),
        is_media.len() == clients.len(),
        count_non_media(
            clients,
            is_media,
            clients[f].workspace.id,
            clients[f].monitor,
            clients.len() as int,
        ) > 1,
        clients[f].fullscreen == 0,
    ensures
        ({
            let moves = avoid_plan_spec(c, clients, f, is_media, media, prev, m).0;
            forall|k: int|
                0 <= k < moves.len() ==> {
                    let r = Rect {
                        x: (#[trigger] moves[k]).1,
                        y: moves[k].2,
                        w: moves[k].3,
                        h: moves[k].4,
                    };
                    if is_media[f] {
                        !overlaps_peer(clients, clients[f], r)
                    } else {
                        !overlap_spec(r, client_rect(clients[f]))
                    }
                }
        }),
{
    let fc = clients[f];
    let n = media.len() as int;
    lemma_loop_moves_origin(c, m, fc, LoopRule::Overlap, media, n);
    let moves = avoid_plan_spec(c, clients, f, is_media, media, prev, m).0;
    assert forall|k: int| 0 <= k < moves.len() implies {
        let r = Rect { x: (#[trigger] moves[k]).1, y: moves[k].2, w: moves[k].3, h: moves[k].4 };
        if is_media[f] {
            !overlaps_peer(clients, clients[f], r)
        } else {
            !overlap_spec(r, client_rect(clients[f]))
        }
    } by {
        if !is_media[f] && fc.monitor > -1 && has_windowed(media) {
            assert(moves == loop_moves(c, m, fc, LoopRule::Overlap, media, n));
            assert(moved_from(c, m, fc, LoopRule::Overlap, media, n, moves[k]));
        }
    }
}

} // verus!
