# media_control_lib

Control of a media player window under the Hyprland compositor: keep it
out of the way of the focused window, pin it, minify it, toggle
fullscreen, move it between corners, close it, and drive mpv through its
IPC socket.

The library in `src/` holds the decisions and is verified with Verus:
every public function carries a contract over a mathematical model, and
the laws that relate several functions are proof functions.

- `geometry`, `position`, `config`: rectangles, corner names, the
  minified size shift, configuration defaults and validation.
- `hyprland`: the IPC data model, command framing, reply reading, address
  and path checks, and live-instance selection.
- `window`: which clients the configured patterns recognise as media
  windows, which one a command acts on, and where focus goes back to.
- `avoid`: the avoider's plan for one window snapshot.
- `actions`, `pin`, `minify`, `move_window`, `fullscreen`, `close`,
  `focus`: the dispatch batches of each window command.
- `mpv`, `workflow`: mpv JSON payloads, socket candidates, token caps,
  reply reading and the retry order.
- `daemon`: event filtering, the snapshot cache, the suppression mirror,
  PID-file and process checks, and the reactions of the event loops.
- `text`, `paths`: string and path helpers with their specifications.

`app/` is the daemon program: sockets, files, signals, timers, serde
parsing and the floating-point scale factor. It performs the actions the
library plans and hands back what it observed.

The configuration is read from `media-control/config.toml` under
`$XDG_CONFIG_HOME` when it is set and non-empty, otherwise under
`$HOME/.config`.
