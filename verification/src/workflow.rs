//! Workflow commands sent to mpv: chapter and seek commands, the `play`
//! target grammar, and the `random` request with its argument cap.
use vstd::prelude::*;

use crate::actions::str_views;
use crate::error::MediaControlError;
use crate::mpv::{
    command_from_elems, command_json, empty_token_message, json_int, json_string, json_text, long_token_message, script_message_elems,
    script_message_payload, validate_ipc_token_len,
};
use crate::text::{push_str, str_chars, str_is, string_from_chars, string_of};

verus! {

// ---------------------------------------------------------------------------
// Chapters
// ---------------------------------------------------------------------------
/// Chapter navigation direction.
#[derive(Debug, Clone, Copy, PartialEq, Eq, Structural)]
pub enum ChapterDirection {
    Next,
    Prev,
}

/// The accepted spellings of each direction.
pub open spec fn chapter_parse_spec(s: Seq<char>) -> Option<ChapterDirection> {
    if s == "next"@ || s == "Next"@ {
        Some(ChapterDirection::Next)
    } else if s == "prev"@ || s == "Prev"@ || s == "previous"@ || s == "Previous"@ {
        Some(ChapterDirection::Prev)
    } else {
        None
    }
}

/// The chapter offset of a direction.
pub open spec fn chapter_offset(d: ChapterDirection) -> int {
    match d {
        ChapterDirection::Next => 1,
        ChapterDirection::Prev => -1,
    }
}

impl ChapterDirection {
    /// Offset to add to the current chapter: `+1` or `-1`.
    pub fn offset(self) -> (r: i8)
        ensures
            r == chapter_offset(self),
    {
        match self {
            ChapterDirection::Next => 1,
            ChapterDirection::Prev => -1,
        }
    }

    /// Parse a direction: `next`/`Next`, or `prev`/`Prev`/`previous`/
    /// `Previous`; anything else is `None`.
    pub fn parse(s: &str) -> (r: Option<Self>)
        ensures
            r == chapter_parse_spec(s@),
    {
        if str_is(s, "next") || str_is(s, "Next") {
            Some(ChapterDirection::Next)
        } else if str_is(s, "prev") || str_is(s, "Prev") || str_is(s, "previous") || str_is(
            s,
            "Previous",
        ) {
            Some(ChapterDirection::Prev)
        } else {
            None
        }
    }
}

/// `{"command":["add","chapter",<offset>]}`.
pub fn chapter_payload(direction: ChapterDirection) -> (r: String)
    ensures
        r@ == command_json(
            seq![
                json_string("add"@),
                json_string("chapter"@),
                crate::text::decimal(chapter_offset(direction)),
            ],
        ),
{
    let mut elems: Vec<String> = Vec::new();
    elems.push(json_text("add"));
    elems.push(json_text("chapter"));
    elems.push(json_int(direction.offset() as i64));
    assert(crate::actions::string_views(elems@) =~= seq![
        json_string("add"@),
        json_string("chapter"@),
        crate::text::decimal(chapter_offset(direction)),
    ]);
    command_from_elems(&elems)
}

// ---------------------------------------------------------------------------
// Seek
// ---------------------------------------------------------------------------
/// `{"command":["seek",<percent>,"absolute-percent"]}`.
pub fn seek_payload(percent: u8) -> (r: String)
    ensures
        r@ == command_json(
            seq![
                json_string("seek"@),
                crate::text::decimal(percent as int),
                json_string("absolute-percent"@),
            ],
        ),
{
    let mut elems: Vec<String> = Vec::new();
    elems.push(json_text("seek"));
    elems.push(json_int(percent as i64));
    elems.push(json_text("absolute-percent"));
    assert(crate::actions::string_views(elems@) =~= seq![
        json_string("seek"@),
        crate::text::decimal(percent as int),
        json_string("absolute-percent"@),
    ]);
    command_from_elems(&elems)
}

// ---------------------------------------------------------------------------
// Play
// ---------------------------------------------------------------------------
/// Longest accepted Jellyfin item id.
pub const ITEM_ID_MAX_LEN: usize = 128;

/// What `play` plays.
#[derive(Debug, Clone, PartialEq, Eq)]
pub enum PlayTarget {
    /// The next-up episode.
    NextUp,
    /// A named store (`twitch`, `jellyfin`, ...).
    Store(String),
    /// A Jellyfin item id.
    ItemId(String),
}

/// An ASCII hexadecimal digit.
pub open spec fn is_hex_digit(c: char) -> bool {
    ('0' <= c && c <= '9') || ('a' <= c && c <= 'f') || ('A' <= c && c <= 'F')
}

/// An item id: 32 to 128 ASCII hex digits.
pub open spec fn is_item_id(s: Seq<char>) -> bool {
    32 <= s.len() <= ITEM_ID_MAX_LEN && forall|i: int| 0 <= i < s.len() ==> is_hex_digit(s[i])
}

/// The model of a play target: its kind (0 next-up, 1 store, 2 item id)
/// and its text.
pub open spec fn play_view(t: PlayTarget) -> (int, Seq<char>) {
    match t {
        PlayTarget::NextUp => (0, Seq::empty()),
        PlayTarget::Store(s) => (1, s@),
        PlayTarget::ItemId(s) => (2, s@),
    }
}

/// How `s` is read: `next-up`, else an item id, else a store name.
pub open spec fn play_parse_spec(s: Seq<char>) -> (int, Seq<char>) {
    if s == "next-up"@ {
        (0, Seq::empty())
    } else if is_item_id(s) {
        (2, s)
    } else {
        (1, s)
    }
}

fn all_hex(s: &[char]) -> (r: bool)
    ensures
        r == forall|i: int| 0 <= i < s@.len() ==> is_hex_digit(s@[i]),
{
    let mut i: usize = 0;
    while i < s.len()
        invariant
            i <= s@.len(),
            forall|k: int| 0 <= k < i ==> is_hex_digit(s@[k]),
        decreases s.len() - i,
    {
        let c = s[i];
        if !(('0' <= c && c <= '9') || ('a' <= c && c <= 'f') || ('A' <= c && c <= 'F')) {
            return false;
        }
        i = i + 1;
    }
    true
}

impl PlayTarget {
    /// Parse a play target. An id of ASCII hex digits is only an item id
    /// when 32 to 128 long; shorter or longer ones, and anything with a
    /// non-hex character, are store names.
    pub fn parse(s: &str) -> (r: Self)
        ensures
            play_view(r) == play_parse_spec(s@),
    {
        if str_is(s, "next-up") {
            return PlayTarget::NextUp;
        }
        let c = str_chars(s);
        if 32 <= c.len() && c.len() <= ITEM_ID_MAX_LEN && all_hex(c.as_slice()) {
            PlayTarget::ItemId(string_of(s))
        } else {
            PlayTarget::Store(string_of(s))
        }
    }
}

/// The script message and arguments that play `t`: `play-next-up`,
/// `play-<store>`, or `play-item` with the id.
pub open spec fn play_message(t: (int, Seq<char>)) -> (Seq<char>, Seq<Seq<char>>) {
    if t.0 == 0 {
        ("play-next-up"@, Seq::empty())
    } else if t.0 == 1 {
        ("play-"@ + t.1, Seq::empty())
    } else {
        ("play-item"@, seq![t.1])
    }
}

/// The payload that plays `target`.
pub fn play_payload(target: &PlayTarget) -> (r: String)
    ensures
        r@ == command_json(
            script_message_elems(play_message(play_view(*target)).0, play_message(play_view(*target)).1),
        ),
{
    match target {
        PlayTarget::NextUp => {
            let none: Vec<&str> = Vec::new();
            let r = script_message_payload("play-next-up", none.as_slice());
            assert(str_views(none@) =~= Seq::<Seq<char>>::empty());
            r
        },
        PlayTarget::Store(name) => {
            let mut m: Vec<char> = Vec::new();
            push_str(&mut m, "play-");
            push_str(&mut m, name.as_str());
            let msg = string_from_chars(&m);
            let none: Vec<&str> = Vec::new();
            let r = script_message_payload(msg.as_str(), none.as_slice());
            assert(str_views(none@) =~= Seq::<Seq<char>>::empty());
            r
        },
        PlayTarget::ItemId(id) => {
            let mut args: Vec<&str> = Vec::new();
            args.push(id.as_str());
            let r = script_message_payload("play-item", args.as_slice());
            assert(str_views(args@) =~= seq![id@]);
            r
        },
    }
}

// ---------------------------------------------------------------------------
// Random
// ---------------------------------------------------------------------------
/// Longest accepted `random` type, in bytes.
pub const RANDOM_TYPE_MAX_LEN: usize = 64;

/// The `random` request: plain, or with a type checked against the cap
/// before anything is sent.
pub fn random_payload(random_type: Option<&str>) -> (r: Result<String, MediaControlError>)
    ensures
        random_type is None ==> r is Ok && r->Ok_0@ == command_json(
            script_message_elems("random"@, Seq::empty()),
        ),
        random_type is Some ==> {
            let t = random_type->0;
            &&& t@.len() == 0 ==> (r matches Err(MediaControlError::InvalidArgument(m)) && m@
                == empty_token_message("random type"@))
            &&& t@.len() > 0 && t.len() > RANDOM_TYPE_MAX_LEN ==> (r matches Err(
                MediaControlError::InvalidArgument(m),
            ) && m@ == long_token_message("random type"@, t.len() as nat, RANDOM_TYPE_MAX_LEN as nat))
            &&& t@.len() > 0 && t.len() <= RANDOM_TYPE_MAX_LEN ==> r is Ok && r->Ok_0@
                == command_json(script_message_elems("random"@, seq![t@]))
        },
{
    match random_type {
        None => {
            let none: Vec<&str> = Vec::new();
            let r = script_message_payload("random", none.as_slice());
            assert(str_views(none@) =~= Seq::<Seq<char>>::empty());
            Ok(r)
        },
        Some(t) => {
            match validate_ipc_token_len("random type", t, RANDOM_TYPE_MAX_LEN) {
                Err(e) => Err(e),
                Ok(()) => {
                    let mut args: Vec<&str> = Vec::new();
                    args.push(t);
                    let r = script_message_payload("random", args.as_slice());
                    assert(str_views(args@) =~= seq![t@]);
                    Ok(r)
                },
            }
        },
    }
}

} // verus!
