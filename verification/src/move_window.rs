//! Directional moves of the media window to the configured edges.
use vstd::prelude::*;

use crate::actions::{exact_action, move_pixel_action, resize_pixel_action, string_views};
use crate::config::Config;
use crate::position::{
    effective_dimensions, effective_dims, effective_position_or, resolve_position_or, shift_fits,
    MinifyState,
};
use crate::text::{eq_ignore_ascii_case, eq_ignore_ascii_case_spec, str_chars, string_of};
use crate::window::MediaWindow;

verus! {

/// Movement direction using vim-style keys.
#[derive(Debug, Clone, Copy, PartialEq, Eq, Structural)]
pub enum Direction {
    /// Move to left edge (h key).
    Left,
    /// Move to bottom edge (j key).
    Down,
    /// Move to top edge (k key).
    Up,
    /// Move to right edge (l key).
    Right,
}

/// The direction of a vim key: `h`, `j`, `k`, `l` (case-sensitive).
pub open spec fn from_char_spec(c: char) -> Option<Direction> {
    if c == 'h' {
        Some(Direction::Left)
    } else if c == 'j' {
        Some(Direction::Down)
    } else if c == 'k' {
        Some(Direction::Up)
    } else if c == 'l' {
        Some(Direction::Right)
    } else {
        None
    }
}

/// The direction a string names: `left`, `right`, `up`, `down` in any ASCII
/// case, else the vim key given by its first character.
pub open spec fn parse_spec(s: Seq<char>) -> Option<Direction> {
    if eq_ignore_ascii_case_spec(s, "left"@) {
        Some(Direction::Left)
    } else if eq_ignore_ascii_case_spec(s, "right"@) {
        Some(Direction::Right)
    } else if eq_ignore_ascii_case_spec(s, "up"@) {
        Some(Direction::Up)
    } else if eq_ignore_ascii_case_spec(s, "down"@) {
        Some(Direction::Down)
    } else if s.len() > 0 {
        from_char_spec(s[0])
    } else {
        None
    }
}

/// The lower-case name of a direction.
pub open spec fn direction_name(d: Direction) -> Seq<char> {
    match d {
        Direction::Left => "left"@,
        Direction::Down => "down"@,
        Direction::Up => "up"@,
        Direction::Right => "right"@,
    }
}

fn eq_ci(s: &[char], lit: &str) -> (r: bool)
    ensures
        r == eq_ignore_ascii_case_spec(s@, lit@),
{
    let l = str_chars(lit);
    eq_ignore_ascii_case(s, l.as_slice())
}

impl Direction {
    /// Parse a direction from a vim-style character (`h`, `j`, `k`, `l`).
    pub fn from_char(c: char) -> (r: Option<Self>)
        ensures
            r == from_char_spec(c),
    {
        match c {
            'h' => Some(Direction::Left),
            'j' => Some(Direction::Down),
            'k' => Some(Direction::Up),
            'l' => Some(Direction::Right),
            _ => None,
        }
    }

    /// Parse a direction from a string: vim keys (first character) or the
    /// names `left`, `down`, `up`, `right` in any ASCII case.
    pub fn parse(s: &str) -> (r: Option<Self>)
        ensures
            r == parse_spec(s@),
    {
        let c = str_chars(s);
        if eq_ci(c.as_slice(), "left") {
            Some(Direction::Left)
        } else if eq_ci(c.as_slice(), "right") {
            Some(Direction::Right)
        } else if eq_ci(c.as_slice(), "up") {
            Some(Direction::Up)
        } else if eq_ci(c.as_slice(), "down") {
            Some(Direction::Down)
        } else if c.len() > 0 {
            Direction::from_char(c[0])
        } else {
            None
        }
    }

    /// Parse a direction from a string (the lower-casing form of
    /// [`Direction::parse`]: a string lower-cases to one of the four names
    /// exactly when it equals it ignoring ASCII case, since no other
    /// character lower-cases to these letters).
    #[allow(clippy::should_implement_trait)]
    pub fn from_str(s: &str) -> (r: Option<Self>)
        ensures
            r == parse_spec(s@),
    {
        Direction::parse(s)
    }

    /// The lower-case name (`left`, `down`, `up`, `right`).
    #[allow(clippy::inherent_to_string)]
    pub fn to_string(&self) -> (s: String)
        ensures
            s@ == direction_name(*self),
    {
        match self {
            Direction::Left => string_of("left"),
            Direction::Down => string_of("down"),
            Direction::Up => string_of("up"),
            Direction::Right => string_of("right"),
        }
    }
}

/// Where a move in `d` puts the window: the configured edge on the moving
/// axis (an unknown name resolves to 0), the current coordinate on the
/// other.
pub open spec fn move_target(c: Config, m: MinifyState, w: MediaWindow, d: Direction) -> (i32, i32) {
    let p = c.positions;
    match d {
        Direction::Left => (effective_position_or(p, m, "x_left"@, 0), w.y),
        Direction::Right => (effective_position_or(p, m, "x_right"@, 0), w.y),
        Direction::Up => (w.x, effective_position_or(p, m, "y_top"@, 0)),
        Direction::Down => (w.x, effective_position_or(p, m, "y_bottom"@, 0)),
    }
}

/// The dispatch actions of a directional move: move to the target, resize
/// to the effective size; none for a fullscreen window.
pub fn move_window_actions(config: &Config, window: &MediaWindow, direction: Direction, m: MinifyState) -> (r:
    Option<Vec<String>>)
    requires
        shift_fits(config.positions, m),
    ensures
        window.fullscreen > 0 ==> r is None,
        window.fullscreen == 0 ==> r is Some && string_views(r->0@) == {
            let t = move_target(*config, m, *window, direction);
            let d = effective_dims(config.positions, m);
            seq![
                exact_action("movewindowpixel"@, window.address@, t.0 as int, t.1 as int),
                exact_action("resizewindowpixel"@, window.address@, d.0 as int, d.1 as int),
            ]
        },
{
    if window.fullscreen > 0 {
        return None;
    }
    let (ew, eh) = effective_dimensions(config, m);
    let (new_x, new_y) = match direction {
        Direction::Left => (resolve_position_or(config, "x_left", 0, m), window.y),
        Direction::Right => (resolve_position_or(config, "x_right", 0, m), window.y),
        Direction::Up => (window.x, resolve_position_or(config, "y_top", 0, m)),
        Direction::Down => (window.x, resolve_position_or(config, "y_bottom", 0, m)),
    };
    let mut r: Vec<String> = Vec::new();
    r.push(move_pixel_action(window.address.as_str(), new_x, new_y));
    r.push(resize_pixel_action(window.address.as_str(), ew, eh));
    proof {
        let t = move_target(*config, m, *window, direction);
        assert(t == (new_x, new_y));
        assert(string_views(r@) =~= seq![
            exact_action("movewindowpixel"@, window.address@, new_x as int, new_y as int),
            exact_action("resizewindowpixel"@, window.address@, ew as int, eh as int),
        ]);
    }
    Some(r)
}

/// Moving left or right keeps the row, moving up or down keeps the column;
/// a move is idempotent: moving again in the same direction from the
/// target gives the same target.
pub proof fn lemma_move_keeps_other_axis(c: Config, m: MinifyState, w: MediaWindow, d: Direction)
    ensures
        (d == Direction::Left || d == Direction::Right) ==> move_target(c, m, w, d).1 == w.y,
        (d == Direction::Up || d == Direction::Down) ==> move_target(c, m, w, d).0 == w.x,
        ({
            let t = move_target(c, m, w, d);
            let moved = MediaWindow { x: t.0, y: t.1, ..w };
            move_target(c, m, moved, d) == t
        }),
{
}

/// A directional move reaches the configured edge in that direction: left
/// to `x_left`, up to `y_top`, right to `x_right` and down to `y_bottom`,
/// the right and bottom ones shifted in minified mode by what the window
/// shrank so that it still ends at the configured far edge; the other
/// coordinate stays. So a move down and a move up land on different rows
/// whenever the top and bottom edges differ.
pub proof fn lemma_move_reaches_edge(c: Config, m: MinifyState, w: MediaWindow)
    requires
        shift_fits(c.positions, m),
    ensures
        ({
            let p = c.positions;
            let dx: int = if m.minified {
                p.width - m.scaled_width
            } else {
                0
            };
            let dy: int = if m.minified {
                p.height - m.scaled_height
            } else {
                0
            };
            let d = effective_dims(p, m);
            &&& move_target(c, m, w, Direction::Left) == (p.x_left, w.y)
            &&& move_target(c, m, w, Direction::Up) == (w.x, p.y_top)
            &&& move_target(c, m, w, Direction::Right).0 == p.x_right + dx
            &&& move_target(c, m, w, Direction::Right).1 == w.y
            &&& move_target(c, m, w, Direction::Down).0 == w.x
            &&& move_target(c, m, w, Direction::Down).1 == p.y_bottom + dy
            &&& move_target(c, m, w, Direction::Right).0 + d.0 == p.x_right + p.width
            &&& move_target(c, m, w, Direction::Down).1 + d.1 == p.y_bottom + p.height
            &&& (p.y_top != p.y_bottom + dy ==> move_target(c, m, w, Direction::Up).1
                != move_target(c, m, w, Direction::Down).1)
        }),
{
    crate::position::lemma_position_names_distinct();
}

} // verus!
