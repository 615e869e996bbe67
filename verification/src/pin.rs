//! Pinned-floating toggle of the media window: "all on" to "all off" and
//! back. Only a window that is both floating and pinned is switched off;
//! every other state is driven to floating + pinned and repositioned.
use vstd::prelude::*;

use crate::actions::{
    focus_window_action, pin_action, placement_actions, reposition_actions, string_views,
    toggle_floating_action,
};
use crate::config::Config;
use crate::position::{default_placement, shift_fits, MinifyState};
use crate::window::MediaWindow;

verus! {

/// What the pin toggle sends.
#[derive(Debug)]
pub enum PinPlan {
    /// No media window, or it is fullscreen: nothing is sent.
    Skip,
    /// Unpin and unfloat, in one batch.
    Disable { batch: Vec<String> },
    /// Focus and switch on what is off, in one batch; then (after a fresh
    /// suppression stamp) the reposition batch.
    Enable { batch: Vec<String>, reposition: Vec<String> },
}

/// `pin address:<addr>`.
pub open spec fn pin_text(addr: Seq<char>) -> Seq<char> {
    "pin address:"@ + addr
}

/// `togglefloating address:<addr>`.
pub open spec fn float_text(addr: Seq<char>) -> Seq<char> {
    "togglefloating address:"@ + addr
}

/// The enabling batch: focus, then toggle floating if off, then pin if
/// unpinned.
pub open spec fn enable_batch(w: MediaWindow) -> Seq<Seq<char>> {
    seq!["focuswindow address:"@ + w.address@] + (if !w.floating {
        seq![float_text(w.address@)]
    } else {
        Seq::empty()
    }) + (if !w.pinned {
        seq![pin_text(w.address@)]
    } else {
        Seq::empty()
    })
}

/// The model of a plan: `None` for skip, else the first batch and the
/// reposition batch (empty when disabling).
pub open spec fn pin_plan_view(p: PinPlan) -> Option<(Seq<Seq<char>>, Seq<Seq<char>>)> {
    match p {
        PinPlan::Skip => None,
        PinPlan::Disable { batch } => Some((string_views(batch@), Seq::empty())),
        PinPlan::Enable { batch, reposition } => Some(
            (string_views(batch@), string_views(reposition@)),
        ),
    }
}

/// The window behind an optional reference.
pub open spec fn owned_window(w: Option<&MediaWindow>) -> Option<MediaWindow> {
    match w {
        Some(x) => Some(*x),
        None => None,
    }
}

/// The pin toggle for `window` in minify mode `m`.
pub open spec fn pin_plan_spec(c: Config, window: Option<MediaWindow>, m: MinifyState) -> Option<
    (Seq<Seq<char>>, Seq<Seq<char>>),
> {
    match window {
        None => None,
        Some(w) => if w.fullscreen > 0 {
            None
        } else if w.floating && w.pinned {
            Some((seq![pin_text(w.address@), float_text(w.address@)], Seq::empty()))
        } else {
            Some((enable_batch(w), placement_actions(w.address@, default_placement(c, m))))
        },
    }
}

/// Plan the pinned-floating toggle (see [`pin_plan_spec`]).
pub fn pin_and_float(config: &Config, window: Option<&MediaWindow>, m: MinifyState) -> (r: PinPlan)
    requires
        shift_fits(config.positions, m),
    ensures
        pin_plan_view(r) == pin_plan_spec(*config, owned_window(window), m),
        (r is Disable) == (window is Some && window->0.fullscreen <= 0 && window->0.floating
            && window->0.pinned),
{
    let w = match window {
        None => {
            return PinPlan::Skip;
        },
        Some(w) => w,
    };
    if w.fullscreen > 0 {
        return PinPlan::Skip;
    }
    let addr = w.address.as_str();
    if w.floating && w.pinned {
        let mut batch: Vec<String> = Vec::new();
        batch.push(pin_action(addr));
        batch.push(toggle_floating_action(addr));
        assert(string_views(batch@) =~= seq![pin_text(w.address@), float_text(w.address@)]);
        return PinPlan::Disable { batch };
    }
    let mut batch: Vec<String> = Vec::new();
    batch.push(focus_window_action(addr));
    if !w.floating {
        batch.push(toggle_floating_action(addr));
    }
    if !w.pinned {
        batch.push(pin_action(addr));
    }
    assert(string_views(batch@) =~= enable_batch(*w));
    let reposition = reposition_actions(config, addr, m);
    PinPlan::Enable { batch, reposition }
}

/// How many entries of `actions` are exactly `a`.
pub open spec fn count_of(actions: Seq<Seq<char>>, a: Seq<char>) -> nat
    decreases actions.len(),
{
    if actions.len() == 0 {
        0
    } else {
        count_of(actions.drop_last(), a) + if actions.last() == a {
            1nat
        } else {
            0nat
        }
    }
}

/// The floating and pinned state after a batch: every `togglefloating`
/// and every `pin` of the address flips its bit.
pub open spec fn after_batch(
    floating: bool,
    pinned: bool,
    addr: Seq<char>,
    actions: Seq<Seq<char>>,
) -> (bool, bool) {
    (
        if count_of(actions, float_text(addr)) % 2 == 1 {
            !floating
        } else {
            floating
        },
        if count_of(actions, pin_text(addr)) % 2 == 1 {
            !pinned
        } else {
            pinned
        },
    )
}

proof fn lemma_texts_distinct(addr: Seq<char>)
    ensures
        pin_text(addr) != float_text(addr),
        ("focuswindow address:"@ + addr) != pin_text(addr),
        ("focuswindow address:"@ + addr) != float_text(addr),
{
    reveal_strlit("pin address:");
    reveal_strlit("togglefloating address:");
    reveal_strlit("focuswindow address:");
    assert(pin_text(addr)[0] == 'p');
    assert(float_text(addr)[0] == 't');
    assert(("focuswindow address:"@ + addr)[0] == 'f');
}

proof fn lemma_count_push(s: Seq<Seq<char>>, x: Seq<char>, a: Seq<char>)
    ensures
        count_of(s.push(x), a) == count_of(s, a) + if x == a {
            1nat
        } else {
            0nat
        },
{
    assert(s.push(x).drop_last() =~= s);
}

/// The toggle is "all on" and "all off": from floating + pinned it ends
/// neither floating nor pinned; from any other state the enabling batch
/// ends both floating and pinned.
pub proof fn lemma_pin_toggle_reaches_target(c: Config, w: MediaWindow, m: MinifyState)
    requires
        w.fullscreen <= 0,
    ensures
        ({
            let plan = pin_plan_spec(c, Some(w), m);
            &&& plan is Some
            &&& after_batch(w.floating, w.pinned, w.address@, plan.unwrap().0) == if w.floating
                && w.pinned {
                (false, false)
            } else {
                (true, true)
            }
        }),
{
    let a = w.address@;
    let f = "focuswindow address:"@ + a;
    lemma_texts_distinct(a);
    let e: Seq<Seq<char>> = Seq::empty();
    assert(count_of(e, pin_text(a)) == 0);
    assert(count_of(e, float_text(a)) == 0);
    if w.floating && w.pinned {
        let b = seq![pin_text(a), float_text(a)];
        assert(b =~= e.push(pin_text(a)).push(float_text(a)));
        lemma_count_push(e, pin_text(a), pin_text(a));
        lemma_count_push(e, pin_text(a), float_text(a));
        lemma_count_push(e.push(pin_text(a)), float_text(a), pin_text(a));
        lemma_count_push(e.push(pin_text(a)), float_text(a), float_text(a));
    } else {
        let b0 = e.push(f);
        lemma_count_push(e, f, pin_text(a));
        lemma_count_push(e, f, float_text(a));
        let b1 = if !w.floating {
            b0.push(float_text(a))
        } else {
            b0
        };
        if !w.floating {
            lemma_count_push(b0, float_text(a), pin_text(a));
            lemma_count_push(b0, float_text(a), float_text(a));
        }
        let b2 = if !w.pinned {
            b1.push(pin_text(a))
        } else {
            b1
        };
        if !w.pinned {
            lemma_count_push(b1, pin_text(a), pin_text(a));
            lemma_count_push(b1, pin_text(a), float_text(a));
        }
        assert(enable_batch(w) =~= b2);
    }
}

} // verus!
