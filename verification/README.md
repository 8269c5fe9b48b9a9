# Couchcast

Couchcast shows the live video and audio of a V4L2 HDMI capture device in a
fullscreen window and forwards controller input back to the captured device
(a Fire TV / Android TV over a persistent `adb shell`).

## Layout

- `src/` — the library, verified with Verus. Every public function carries a
  contract over a mathematical model of its data; the `law_*` proof functions
  state properties that span several functions.
  - `event`, `capabilities`, `transport` — the remote-control vocabulary, what
    each kind of target understands, target addresses and transport errors.
  - `mapping` — the editable button map (lookup, rebind, unbind, defaults).
  - `adb` — the ADB backend: serials, the shell line of each action, text
    escaping, `adb connect` output, and the connect/send/disconnect state.
  - `backends` — the logging transport and the not-yet-implemented backends.
  - `input` — controller-event normalization and menu navigation intents.
  - `router` — the Start + Select chord, overlay navigation and capture-mode
    forwarding of controller events.
  - `device`, `pipeline`, `frame` — capture codecs and formats, their menus'
    ordering, and the GStreamer pipeline description.
  - `config` — configuration types, transport choices and startup choices.
  - `worker` — what the transport worker does with each command.
  - `menu`, `debug` — the controller-driven settings menu and the debug
    overlay's text.
  - `text` — verified string helpers (decimal rendering, search, trimming).
- `tests/` — tests of the library on concrete values.
- `app/` — the GTK4 / libadwaita program around the library: windows and
  widgets, GStreamer and V4L2 calls, `gilrs` polling, the tokio transport
  worker and the `adb` child process, and the TOML config file.
