//! Minified-mode toggle: the media window moves to its default corner at
//! the size of the *target* mode first, and only then is the on-disk flag
//! flipped, so the flag never claims a geometry that was not applied.
use vstd::prelude::*;

use crate::actions::{placement_actions, reposition_actions, string_views};
use crate::config::Config;
use crate::position::{default_placement, shift_fits, MinifyState};
use crate::window::MediaWindow;

verus! {

/// The toggle's plan: the mode to switch to and the reposition batch for
/// it (sent after a fresh suppression stamp, before the flag is flipped).
#[derive(Debug)]
pub struct MinifyPlan {
    pub target: bool,
    pub actions: Vec<String>,
}

/// The mode after the toggle, with the scaled size it would use.
pub open spec fn target_state(was_minified: bool, scaled_width: i32, scaled_height: i32) -> MinifyState {
    MinifyState { minified: !was_minified, scaled_width, scaled_height }
}

/// Plan the minify toggle for `window`: nothing for no window or a
/// fullscreen one; otherwise the inverse of `was_minified` and the
/// default placement in that mode. `scaled_width` / `scaled_height` are
/// the configured size scaled by the minified factor.
pub fn minify(
    config: &Config,
    window: Option<&MediaWindow>,
    was_minified: bool,
    scaled_width: i32,
    scaled_height: i32,
) -> (r: Option<MinifyPlan>)
    requires
        shift_fits(config.positions, target_state(was_minified, scaled_width, scaled_height)),
    ensures
        match window {
            None => r is None,
            Some(w) => if w.fullscreen > 0 {
                r is None
            } else {
                r is Some && r->0.target == !was_minified && string_views(r->0.actions@)
                    == placement_actions(
                    w.address@,
                    default_placement(
                        *config,
                        target_state(was_minified, scaled_width, scaled_height),
                    ),
                )
            },
        },
{
    let w = match window {
        None => {
            return None;
        },
        Some(w) => w,
    };
    if w.fullscreen > 0 {
        return None;
    }
    let target = !was_minified;
    let m = MinifyState { minified: target, scaled_width, scaled_height };
    let actions = reposition_actions(config, w.address.as_str(), m);
    Some(MinifyPlan { target, actions })
}

} // verus!
