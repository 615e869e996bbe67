//! Graceful close of the media window: a jellyfin-mpv-shim player is told to
//! stop and keeps its window, a Firefox Picture-in-Picture window is closed
//! and the browser paused, and everything else gets `closewindow`.
use vstd::prelude::*;

use crate::actions::close_window_action;
use crate::fullscreen::{is_pip_title, pip_title};
use crate::text::{str_is, string_of};
use crate::window::MediaWindow;

verus! {

/// The socket of the jellyfin-mpv-shim player.
pub open spec fn shim_socket() -> Seq<char> {
    "/tmp/mpv-shim"@
}

/// The message that stops the shim and clears its playlist.
pub open spec fn shim_stop_payload() -> Seq<char> {
    "{\"command\":[\"script-message\",\"stop-and-clear\"]}"@
}

/// The executable name of the shim's player.
pub open spec fn shim_name() -> Seq<u8> {
    seq![109u8, 112u8, 118u8, 45u8, 115u8, 104u8, 105u8, 109u8]
}

/// argv\[0\] of a NUL-separated command line: everything before the first
/// NUL.
pub open spec fn argv0(cmdline: Seq<u8>) -> Seq<u8> {
    if exists|i: int| 0 <= i < cmdline.len() && cmdline[i] == 0u8 {
        cmdline.take(
            choose|i: int|
                0 <= i < cmdline.len() && cmdline[i] == 0u8 && forall|j: int|
                    0 <= j < i ==> cmdline[j] != 0u8,
        )
    } else {
        cmdline
    }
}

/// The last `/`-separated segment of a path.
pub open spec fn last_segment(p: Seq<u8>) -> Seq<u8> {
    if exists|i: int| 0 <= i < p.len() && p[i] == 47u8 {
        p.skip(
            (choose|i: int|
                0 <= i < p.len() && p[i] == 47u8 && forall|j: int| i < j < p.len() ==> p[j] != 47u8)
                + 1,
        )
    } else {
        p
    }
}

/// The command line is the shim's player: the file name of argv\[0\] is
/// `mpv-shim` (a file argument that merely mentions it does not count).
pub open spec fn is_shim_cmdline_spec(cmdline: Seq<u8>) -> bool {
    last_segment(argv0(cmdline)) == shim_name()
}

fn argv0_end(cmdline: &[u8]) -> (end: usize)
    ensures
        end <= cmdline@.len(),
        argv0(cmdline@) == cmdline@.take(end as int),
{
    let n = cmdline.len();
    let mut end: usize = 0;
    while end < n && cmdline[end] != 0u8
        invariant
            end <= n,
            n == cmdline@.len(),
            forall|j: int| 0 <= j < end ==> cmdline@[j] != 0u8,
        decreases n - end,
    {
        end = end + 1;
    }
    proof {
        if exists|i: int| 0 <= i < cmdline@.len() && cmdline@[i] == 0u8 {
            let k = choose|i: int|
                0 <= i < cmdline@.len() && cmdline@[i] == 0u8 && forall|j: int|
                    0 <= j < i ==> cmdline@[j] != 0u8;
            assert(end < n);
            if k < end {
                assert(cmdline@[k] != 0u8);
            } else if end < k {
                assert(cmdline@[end as int] != 0u8);
            }
        } else {
            assert(end == n);
            assert(cmdline@.take(n as int) =~= cmdline@);
        }
    }
    end
}

fn segment_start(cmdline: &[u8], end: usize) -> (start: usize)
    requires
        end <= cmdline@.len(),
    ensures
        start <= end,
        last_segment(cmdline@.take(end as int)) == cmdline@.subrange(start as int, end as int),
{
    let ghost a = cmdline@.take(end as int);
    let mut start: usize = end;
    while start > 0 && cmdline[start - 1] != 47u8
        invariant
            start <= end,
            end <= cmdline@.len(),
            forall|j: int| start <= j < end ==> cmdline@[j] != 47u8,
        decreases start,
    {
        start = start - 1;
    }
    proof {
        if exists|i: int| 0 <= i < a.len() && a[i] == 47u8 {
            let k = choose|i: int|
                0 <= i < a.len() && a[i] == 47u8 && forall|j: int| i < j < a.len() ==> a[j] != 47u8;
            if start == 0 {
                assert(a[k] != 47u8);
            }
            assert(a[start - 1] == 47u8);
            if k < start - 1 {
                assert(a[start - 1] != 47u8);
            } else if start - 1 < k {
                assert(a[k] != 47u8);
            }
            assert(a.skip(start as int) =~= cmdline@.subrange(start as int, end as int));
        } else {
            if start > 0 {
                assert(a[start - 1] == 47u8);
            }
            assert(a =~= cmdline@.subrange(0, end as int));
        }
    }
    start
}

/// Whether the contents of `/proc/<pid>/cmdline` belong to the shim's
/// player. Bytes, not text: argv may hold non-UTF-8 sequences.
pub fn is_shim_cmdline(cmdline: &[u8]) -> (r: bool)
    ensures
        r == is_shim_cmdline_spec(cmdline@),
{
    let end = argv0_end(cmdline);
    let start = segment_start(cmdline, end);
    let ghost seg = cmdline@.subrange(start as int, end as int);
    if end - start != 8 {
        assert(seg.len() != shim_name().len());
        return false;
    }
    let name: [u8; 8] = [109u8, 112u8, 118u8, 45u8, 115u8, 104u8, 105u8, 109u8];
    assert(name@ =~= shim_name());
    let mut k: usize = 0;
    while k < 8
        invariant
            k <= 8,
            start + 8 == end,
            end <= cmdline@.len(),
            name@ == shim_name(),
            seg == cmdline@.subrange(start as int, end as int),
            is_shim_cmdline_spec(cmdline@) == (seg == shim_name()),
            forall|j: int| 0 <= j < k ==> seg[j] == shim_name()[j],
        decreases 8 - k,
    {
        if cmdline[start + k] != name[k] {
            assert(seg[k as int] != shim_name()[k as int]);
            return false;
        }
        k = k + 1;
    }
    assert(seg =~= shim_name());
    true
}

/// Whether closing `w` first needs its command line: only an `mpv` window
/// with a real process id can be the shim's player.
pub fn shim_check_needed(w: &MediaWindow) -> (r: bool)
    ensures
        r == (w.class@ == "mpv"@ && w.pid > 0),
{
    str_is(w.class.as_str(), "mpv") && w.pid > 0
}

/// How the media window is closed.
#[derive(Debug)]
pub enum CloseAction {
    /// No media window: nothing to close.
    Nothing,
    /// The shim's player: send `payload` to `socket` and keep the window
    /// for reuse (a failed send is ignored).
    StopShim { socket: String, payload: String },
    /// A Firefox Picture-in-Picture window: stamp the suppression file,
    /// dispatch `dispatch`, then pause Firefox through MPRIS (best effort).
    ClosePip { dispatch: String },
    /// Any other window: stamp the suppression file, then dispatch
    /// `dispatch`.
    Close { dispatch: String },
}

/// The model of a close action: its kind (0 nothing, 1 shim, 2 PiP,
/// 3 other) and its text (the payload or the dispatch).
pub open spec fn close_view(a: CloseAction) -> (int, Seq<char>) {
    match a {
        CloseAction::Nothing => (0, Seq::empty()),
        CloseAction::StopShim { socket, payload } => (1, payload@),
        CloseAction::ClosePip { dispatch } => (2, dispatch@),
        CloseAction::Close { dispatch } => (3, dispatch@),
    }
}

/// How `w` is closed, given its process command line when it was read
/// (`None` when it was not needed or could not be read).
pub open spec fn close_spec(w: MediaWindow, cmdline: Option<Seq<u8>>) -> (int, Seq<char>) {
    let shim = w.class@ == "mpv"@ && w.pid > 0 && match cmdline {
        Some(c) => is_shim_cmdline_spec(c),
        None => false,
    };
    if shim {
        (1, shim_stop_payload())
    } else if w.class@ == "firefox"@ && pip_title(w.title@) {
        (2, "closewindow address:"@ + w.address@)
    } else {
        (3, "closewindow address:"@ + w.address@)
    }
}

/// Decide how to close the media window (see [`close_spec`]).
pub fn close_plan(window: Option<&MediaWindow>, cmdline: Option<&[u8]>) -> (r: CloseAction)
    ensures
        window is None ==> r is Nothing,
        window is Some ==> close_view(r) == close_spec(
            *window->0,
            match cmdline {
                Some(c) => Some(c@),
                None => None,
            },
        ),
        r is StopShim ==> r->socket@ == shim_socket(),
{
    let w = match window {
        None => {
            return CloseAction::Nothing;
        },
        Some(w) => w,
    };
    let shim = shim_check_needed(w) && match cmdline {
        Some(c) => is_shim_cmdline(c),
        None => false,
    };
    if shim {
        return CloseAction::StopShim {
            socket: string_of("/tmp/mpv-shim"),
            payload: string_of("{\"command\":[\"script-message\",\"stop-and-clear\"]}"),
        };
    }
    if str_is(w.class.as_str(), "firefox") && is_pip_title(w.title.as_str()) {
        return CloseAction::ClosePip { dispatch: close_window_action(w.address.as_str()) };
    }
    CloseAction::Close { dispatch: close_window_action(w.address.as_str()) }
}

} // verus!
