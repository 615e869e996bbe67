//! Focus the media window, or launch a program when there is none. The
//! launch command is split into argv words (no shell: no expansion,
//! redirection or command chaining), the first word being the program.
use vstd::prelude::*;

use crate::actions::focus_window_action;
use crate::actions::string_views;
use crate::error::MediaControlError;
use crate::text::{debug_quoted, debug_string, push_str, string_from_chars, string_of};
use crate::window::MediaWindow;

verus! {

/// The words `shlex::split` makes of `s` (POSIX-style quoting and
/// escapes), or `None` when it rejects `s` (an unclosed quote, a trailing
/// backslash).
pub uninterp spec fn shlex_words(s: Seq<char>) -> Option<Seq<Seq<char>>>;

/// Splits `s` with `shlex::split`; the words are named by
/// [`shlex_words`].
#[verifier::external_body]
fn split_words(s: &str) -> (r: Option<Vec<String>>)
    ensures
        match r {
            Some(v) => shlex_words(s@) == Some(string_views(v@)),
            None => shlex_words(s@) is None,
        },
{
    shlex::split(s)
}

/// What `focus_or_launch` does.
#[derive(Debug)]
pub enum FocusPlan {
    /// Stamp the suppression file, then dispatch `dispatch` (a
    /// `focuswindow`); the command then reports `true`.
    Focus { dispatch: String },
    /// Spawn `program` with `args` in its own process group, detached from
    /// stdin/stdout/stderr; the command then reports `false`.
    Launch { program: String, args: Vec<String> },
    /// No media window and no launch command: report `false`.
    Nothing,
}

/// The message for a launch command that cannot be split.
pub open spec fn tokenize_message(cmd: Seq<char>) -> Seq<char> {
    "--launch: failed to tokenize "@ + debug_quoted(cmd) + " (unclosed quotes?)"@
}

/// The message for a launch command with no words.
pub open spec fn empty_launch_message() -> Seq<char> {
    "--launch: empty after tokenize"@
}

/// The launch step for `cmd`, given the words it splits into (`None` when
/// it cannot be split): the first word is the program, the rest its
/// arguments; no words, or no split, is an invalid argument.
pub fn launch_plan(cmd: &str, words: Option<Vec<String>>) -> (r: Result<FocusPlan, MediaControlError>)
    ensures
        match words {
            None => r matches Err(MediaControlError::InvalidArgument(m)) && m@ == tokenize_message(
                cmd@,
            ),
            Some(w) => if w@.len() == 0 {
                r matches Err(MediaControlError::InvalidArgument(m)) && m@ == empty_launch_message()
            } else {
                r matches Ok(FocusPlan::Launch { program, args }) && program@ == w@[0]@
                    && string_views(args@) == string_views(w@).skip(1)
            },
        },
{
    let mut w = match words {
        None => {
            let mut out: Vec<char> = Vec::new();
            push_str(&mut out, "--launch: failed to tokenize ");
            push_str(&mut out, debug_string(cmd).as_str());
            push_str(&mut out, " (unclosed quotes?)");
            return Err(MediaControlError::InvalidArgument(string_from_chars(&out)));
        },
        Some(w) => w,
    };
    if w.len() == 0 {
        return Err(MediaControlError::InvalidArgument(string_of("--launch: empty after tokenize")));
    }
    let ghost before = w@;
    let program = w.remove(0);
    assert(string_views(w@) =~= string_views(before).skip(1));
    Ok(FocusPlan::Launch { program, args: w })
}

/// Focus the media window when there is one, else plan the launch of
/// `launch_cmd` (if given), else nothing.
pub fn focus_or_launch(window: Option<&MediaWindow>, launch_cmd: Option<&str>) -> (r: Result<
    FocusPlan,
    MediaControlError,
>)
    ensures
        window is Some ==> (r matches Ok(FocusPlan::Focus { dispatch }) && dispatch@
            == "focuswindow address:"@ + window->0.address@),
        window is None && launch_cmd is None ==> (r matches Ok(FocusPlan::Nothing)),
        window is None && launch_cmd is Some ==> match shlex_words(launch_cmd->0@) {
            None => r matches Err(MediaControlError::InvalidArgument(m)) && m@ == tokenize_message(
                launch_cmd->0@,
            ),
            Some(w) => if w.len() == 0 {
                r matches Err(MediaControlError::InvalidArgument(m)) && m@ == empty_launch_message()
            } else {
                r matches Ok(FocusPlan::Launch { program, args }) && program@ == w[0]
                    && string_views(args@) == w.skip(1)
            },
        },
{
    if let Some(w) = window {
        return Ok(FocusPlan::Focus { dispatch: focus_window_action(w.address.as_str()) });
    }
    match launch_cmd {
        None => Ok(FocusPlan::Nothing),
        Some(cmd) => {
            let words = split_words(cmd);
            launch_plan(cmd, words)
        },
    }
}

} // verus!
