//! Effective window size and position names, accounting for minified mode.
//!
//! Minified mode shrinks the media window by a float factor. The caller
//! computes the scaled dimensions from that factor and hands them in as a
//! [`MinifyState`]; everything after that is integer logic and lives here.
use vstd::prelude::*;

use crate::config::{resolve_position_spec, Config, Positions};

verus! {

/// Whether minified mode is on, and the window size it yields.
#[derive(Copy, Clone, Debug, PartialEq, Eq, Structural)]
pub struct MinifyState {
    pub minified: bool,
    /// Configured width scaled by the minified factor.
    pub scaled_width: i32,
    /// Configured height scaled by the minified factor.
    pub scaled_height: i32,
}

/// The window size in effect: configured, or scaled when minified.
pub open spec fn effective_dims(p: Positions, m: MinifyState) -> (i32, i32) {
    if m.minified {
        (m.scaled_width, m.scaled_height)
    } else {
        (p.width, p.height)
    }
}

/// The minified shift of the right/bottom positions stays within `i32`
/// (outside minified mode nothing is shifted).
pub open spec fn shift_fits(p: Positions, m: MinifyState) -> bool {
    m.minified ==> {
        &&& i32::MIN <= p.width - m.scaled_width <= i32::MAX
        &&& i32::MIN <= p.x_right + (p.width - m.scaled_width) <= i32::MAX
        &&& i32::MIN <= p.height - m.scaled_height <= i32::MAX
        &&& i32::MIN <= p.y_bottom + (p.height - m.scaled_height) <= i32::MAX
    }
}

/// Whether the minified shift of the right/bottom positions stays within
/// `i32` (see [`shift_fits`]); callers check it before resolving
/// positions for a mode.
pub fn minified_shift_fits(config: &Config, m: MinifyState) -> (r: bool)
    ensures
        r == shift_fits(config.positions, m),
{
    if !m.minified {
        return true;
    }
    let p = &config.positions;
    let dw: i64 = p.width as i64 - m.scaled_width as i64;
    let dh: i64 = p.height as i64 - m.scaled_height as i64;
    let lo: i64 = i32::MIN as i64;
    let hi: i64 = i32::MAX as i64;
    lo <= dw && dw <= hi && lo <= p.x_right as i64 + dw && p.x_right as i64 + dw <= hi && lo <= dh
        && dh <= hi && lo <= p.y_bottom as i64 + dh && p.y_bottom as i64 + dh <= hi
}

/// A position name resolved for the current mode: when minified,
/// `x_right` and `y_bottom` move outward by the size reduction so the
/// smaller window keeps the same gap to the screen edge.
pub open spec fn effective_position(p: Positions, m: MinifyState, name: Seq<char>) -> Option<i32> {
    match resolve_position_spec(p, name) {
        None => None,
        Some(raw) => if !m.minified {
            Some(raw)
        } else if name == "x_right"@ {
            Some((raw + (p.width - m.scaled_width)) as i32)
        } else if name == "y_bottom"@ {
            Some((raw + (p.height - m.scaled_height)) as i32)
        } else {
            Some(raw)
        },
    }
}

/// [`effective_position`], or `default` for an unknown name.
pub open spec fn effective_position_or(
    p: Positions,
    m: MinifyState,
    name: Seq<char>,
    default: i32,
) -> i32 {
    match effective_position(p, m, name) {
        Some(v) => v,
        None => default,
    }
}

/// The effective window dimensions for the given mode.
pub fn effective_dimensions(config: &Config, m: MinifyState) -> (r: (i32, i32))
    ensures
        r == effective_dims(config.positions, m),
{
    if !m.minified {
        (config.positions.width, config.positions.height)
    } else {
        (m.scaled_width, m.scaled_height)
    }
}

/// Resolve a position name adjusted for minified mode.
pub fn resolve_effective_position(config: &Config, name: &str, m: MinifyState) -> (r: Option<i32>)
    requires
        shift_fits(config.positions, m),
    ensures
        r == effective_position(config.positions, m, name@),
{
    let raw = match config.resolve_position(name) {
        Some(v) => v,
        None => {
            return None;
        },
    };
    if !m.minified {
        return Some(raw);
    }
    let p = &config.positions;
    proof {
        lemma_position_names_distinct();
    }
    if crate::text::str_is(name, "x_right") {
        Some(raw + (p.width - m.scaled_width))
    } else if crate::text::str_is(name, "y_bottom") {
        Some(raw + (p.height - m.scaled_height))
    } else {
        Some(raw)
    }
}

/// Resolve a position name adjusted for minified mode, falling back to
/// `default` when the name is unknown.
pub fn resolve_position_or(config: &Config, name: &str, default: i32, m: MinifyState) -> (r: i32)
    requires
        shift_fits(config.positions, m),
    ensures
        r == effective_position_or(config.positions, m, name@, default),
{
    match resolve_effective_position(config, name, m) {
        Some(v) => v,
        None => default,
    }
}

/// A default placement: the resize to the effective size and the move to
/// the default corner.
#[derive(Copy, Clone, Debug, PartialEq, Eq, Structural)]
pub struct Placement {
    pub x: i32,
    pub y: i32,
    pub width: i32,
    pub height: i32,
}

/// Where `reposition_to_default` puts a window: the configured default
/// corner (falling back to the effective right / bottom edges when a
/// default name is unknown) at the effective size.
pub open spec fn default_placement(c: Config, m: MinifyState) -> Placement {
    let p = c.positions;
    let x = match effective_position(p, m, c.positioning.default_x@) {
        Some(v) => v,
        None => effective_position_or(p, m, "x_right"@, p.x_right),
    };
    let y = match effective_position(p, m, c.positioning.default_y@) {
        Some(v) => v,
        None => effective_position_or(p, m, "y_bottom"@, p.y_bottom),
    };
    let d = effective_dims(p, m);
    Placement { x, y, width: d.0, height: d.1 }
}

/// The default placement for the given mode.
pub fn default_placement_for(config: &Config, m: MinifyState) -> (r: Placement)
    requires
        shift_fits(config.positions, m),
    ensures
        r == default_placement(*config, m),
{
    let positioning = &config.positioning;
    let x = match resolve_effective_position(config, positioning.default_x.as_str(), m) {
        Some(v) => v,
        None => resolve_position_or(config, "x_right", config.positions.x_right, m),
    };
    let y = match resolve_effective_position(config, positioning.default_y.as_str(), m) {
        Some(v) => v,
        None => resolve_position_or(config, "y_bottom", config.positions.y_bottom, m),
    };
    let (w, h) = effective_dimensions(config, m);
    Placement { x, y, width: w, height: h }
}

/// Minifying never changes where the left and top edges resolve to, and
/// outside minified mode every name resolves to its configured value.
pub proof fn lemma_minify_keeps_left_top(p: Positions, m: MinifyState)
    ensures
        effective_position(p, m, "x_left"@) == Some(p.x_left),
        effective_position(p, m, "y_top"@) == Some(p.y_top),
        !m.minified ==> forall|name: Seq<char>|
            effective_position(p, m, name) == resolve_position_spec(p, name),
{
    lemma_position_names_distinct();
}

/// The six position variable names are pairwise distinct.
pub proof fn lemma_position_names_distinct()
    ensures
        "x_left"@ != "x_right"@,
        "x_left"@ != "y_bottom"@,
        "x_right"@ != "y_top"@,
        "x_right"@ != "y_bottom"@,
        "y_top"@ != "y_bottom"@,
        "width"@ != "x_right"@,
        "width"@ != "y_bottom"@,
        "height"@ != "x_right"@,
        "height"@ != "y_bottom"@,
        "x_left"@ != "y_top"@,
        "x_left"@ != "width"@,
        "x_left"@ != "height"@,
        "x_right"@ != "width"@,
        "x_right"@ != "height"@,
        "y_top"@ != "width"@,
        "y_top"@ != "height"@,
        "y_bottom"@ != "width"@,
        "y_bottom"@ != "height"@,
        "width"@ != "height"@,
{
    reveal_strlit("x_left");
    reveal_strlit("x_right");
    reveal_strlit("y_top");
    reveal_strlit("y_bottom");
    reveal_strlit("width");
    reveal_strlit("height");
    assert("x_left"@.len() == 6);
    assert("x_right"@.len() == 7);
    assert("y_top"@.len() == 5);
    assert("y_bottom"@.len() == 8);
    assert("width"@.len() == 5);
    assert("height"@.len() == 6);
    assert("x_left"@[0] != "y_top"@[0]);
    assert("x_left"@[0] != "height"@[0]);
    assert("width"@[0] != "y_top"@[0]);
}

/// Minifying keeps the gap to the right and bottom screen edges: the
/// shifted right/bottom positions plus the scaled size end where the
/// configured ones end.
pub proof fn lemma_minify_keeps_far_edges(p: Positions, m: MinifyState)
    requires
        m.minified,
        shift_fits(p, m),
    ensures
        effective_position(p, m, "x_right"@) is Some,
        effective_position(p, m, "y_bottom"@) is Some,
        effective_position(p, m, "x_right"@)->0 + effective_dims(p, m).0 == p.x_right + p.width,
        effective_position(p, m, "y_bottom"@)->0 + effective_dims(p, m).1 == p.y_bottom + p.height,
{
    lemma_position_names_distinct();
}

} // verus!
