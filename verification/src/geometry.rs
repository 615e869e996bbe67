//! Axis-aligned rectangle overlap and tolerance checks used by the avoider.
//!
//! All edge arithmetic is done over mathematical integers in the specs and
//! over `i64` in the code, so geometry near the `i32` limits cannot wrap.
use vstd::prelude::*;

use crate::hyprland::Client;
use crate::window::MediaWindow;

verus! {

/// Axis-aligned rectangle in Hyprland window coordinates.
#[derive(Copy, Clone, Debug, PartialEq, Eq, Structural)]
pub struct Rect {
    pub x: i32,
    pub y: i32,
    pub w: i32,
    pub h: i32,
}

/// A rectangle with positive width and height.
pub open spec fn non_degenerate(r: Rect) -> bool {
    r.w > 0 && r.h > 0
}

/// `a` and `b` share at least one interior pixel: both are non-degenerate
/// and their open extents intersect on both axes.
pub open spec fn overlap_spec(a: Rect, b: Rect) -> bool {
    &&& non_degenerate(a)
    &&& non_degenerate(b)
    &&& a.x < b.x + b.w
    &&& b.x < a.x + a.w
    &&& a.y < b.y + b.h
    &&& b.y < a.y + a.h
}

/// `|actual - target| <= tolerance`.
pub open spec fn within_tolerance_spec(actual: int, target: int, tolerance: int) -> bool {
    -tolerance <= actual - target <= tolerance
}

impl Rect {
    /// Construct from `(x, y, w, h)`.
    pub fn new(x: i32, y: i32, w: i32, h: i32) -> (r: Self)
        ensures
            r == (Rect { x, y, w, h }),
    {
        Rect { x, y, w, h }
    }

    /// Construct from a client's `at` / `size` arrays.
    pub fn from_client(c: &Client) -> (r: Self)
        ensures
            r == (Rect { x: c.at[0], y: c.at[1], w: c.size[0], h: c.size[1] }),
    {
        Rect::new(c.at[0], c.at[1], c.size[0], c.size[1])
    }

    /// Construct from a media window's position and size.
    pub fn from_media(m: &MediaWindow) -> (r: Self)
        ensures
            r == (Rect { x: m.x, y: m.y, w: m.width, h: m.height }),
    {
        Rect::new(m.x, m.y, m.width, m.height)
    }

    /// True iff `self` and `other` share at least one interior pixel.
    /// Degenerate rectangles (zero or negative width/height) never overlap.
    pub fn overlaps(&self, other: &Rect) -> (r: bool)
        ensures
            r == overlap_spec(*self, *other),
    {
        if self.w <= 0 || self.h <= 0 || other.w <= 0 || other.h <= 0 {
            return false;
        }
        let ax = self.x as i64;
        let ay = self.y as i64;
        let bx = other.x as i64;
        let by = other.y as i64;
        let aw = self.w as i64;
        let ah = self.h as i64;
        let bw = other.w as i64;
        let bh = other.h as i64;
        !(ax >= bx + bw || bx >= ax + aw || ay >= by + bh || by >= ay + ah)
    }
}

/// Eight-argument form of [`Rect::overlaps`].
pub fn rectangles_overlap(
    x1: i32,
    y1: i32,
    w1: i32,
    h1: i32,
    x2: i32,
    y2: i32,
    w2: i32,
    h2: i32,
) -> (r: bool)
    ensures
        r == overlap_spec(Rect { x: x1, y: y1, w: w1, h: h1 }, Rect { x: x2, y: y2, w: w2, h: h2 }),
{
    Rect::new(x1, y1, w1, h1).overlaps(&Rect::new(x2, y2, w2, h2))
}

/// Whether the rectangle `(ax, ay, aw, ah)` overlaps client `b`.
pub fn rect_overlaps_xywh(ax: i32, ay: i32, aw: i32, ah: i32, b: &Client) -> (r: bool)
    ensures
        r == overlap_spec(
            Rect { x: ax, y: ay, w: aw, h: ah },
            Rect { x: b.at[0], y: b.at[1], w: b.size[0], h: b.size[1] },
        ),
{
    rectangles_overlap(ax, ay, aw, ah, b.at[0], b.at[1], b.size[0], b.size[1])
}

/// Whether `actual` is within `tolerance` of `target`. Computed in `i64`
/// so neither the subtraction nor the absolute value can overflow.
pub fn within_tolerance(actual: i32, target: i32, tolerance: i32) -> (r: bool)
    ensures
        r == within_tolerance_spec(actual as int, target as int, tolerance as int),
{
    let d = actual as i64 - target as i64;
    let a = if d < 0 { -d } else { d };
    a <= tolerance as i64
}

/// Overlap is symmetric.
pub proof fn lemma_overlap_symmetric(a: Rect, b: Rect)
    ensures
        overlap_spec(a, b) == overlap_spec(b, a),
{
}

/// A degenerate rectangle overlaps nothing.
pub proof fn lemma_degenerate_never_overlaps(a: Rect, b: Rect)
    requires
        !non_degenerate(a),
    ensures
        !overlap_spec(a, b),
        !overlap_spec(b, a),
{
}

/// A non-degenerate rectangle overlaps itself and every non-degenerate
/// rectangle it contains.
pub proof fn lemma_contained_overlaps(outer: Rect, inner: Rect)
    requires
        non_degenerate(inner),
        outer.x <= inner.x,
        outer.y <= inner.y,
        inner.x + inner.w <= outer.x + outer.w,
        inner.y + inner.h <= outer.y + outer.h,
    ensures
        overlap_spec(outer, inner),
        overlap_spec(inner, outer),
{
}

/// Rectangles that only touch along an edge do not overlap.
pub proof fn lemma_touching_edges_do_not_overlap(a: Rect, b: Rect)
    requires
        b.x == a.x + a.w || b.y == a.y + a.h,
    ensures
        !overlap_spec(a, b),
{
}

/// Tolerance is symmetric in its two positions, and a position is within
/// any non-negative tolerance of itself; a negative tolerance admits nothing.
pub proof fn lemma_tolerance_laws(a: int, b: int, t: int)
    ensures
        within_tolerance_spec(a, b, t) == within_tolerance_spec(b, a, t),
        t >= 0 ==> within_tolerance_spec(a, a, t),
        t < 0 ==> !within_tolerance_spec(a, b, t),
{
}

} // verus!
