# podctl

Control AirPods on Linux: battery, noise control, conversation awareness
and the rest of the Apple Accessory Protocol (AAP) settings, plus the
BlueZ and PipeWire side of the connection.

## Layout

- `src/` — the library, verified with Verus. Each public function states
  its result in `ensures` over spec functions on `Seq`, `Map` and the
  types' views; the public `lemma_*` proof functions state the laws that
  span several functions (codec round trips, label round trips, what a
  repeated notification does, when a low-battery alert fires, what a
  config write leaves for a later read).
  - `aap` — AAP frames: encode, parse, settings, battery and ear payloads.
  - `model`, `caps`, `ipc` — the device model, per-model capabilities and
    the request/response vocabulary.
  - `bluez`, `audio` — reading `bluetoothctl` and `pactl` output, and the
    command lines sent back.
  - `daemon` — the daemon as a state machine: request → action, outside
    result → new state and events, AAP frame → new state and events, poll
    → merged state and link edges.
  - `cli`, `report`, `standalone`, `diag`, `meter` — the command line:
    argument parsing, routing, exit codes and the text it prints.
  - `tray`, `popup` — the decisions of the tray icon and the popup card.
  - `text` — string and number helpers shared by the parsers.
- `tests/` — tests on concrete values, run against the compiled library.
- `app/` — ordinary Rust around the library: `main`, the daemon's
  sockets and timers, process spawning, terminal output, and JSON through
  serde. Installed as `podctld`, the binary runs the daemon.
