# codex_usage_dock

A floating usage monitor for Codex: it shows the remaining five-hour and
seven-day quota of the local Codex account, read from the Codex App Server,
next to the Codex window.

- `src/` is the verified core (Verus): the usage snapshot and its
  transitions (`usage`), percentage clamping on binary64 encodings
  (`percent`), the App Server session protocol (`protocol`), the choice of
  the `codex` binary (`binary`), recognition of the foreground window
  (`focus`) and the panel layout state machine (`layout`).
- `app/` is the Tauri desktop shell around it: process and pipe I/O, JSON
  (de)serialization, the window system, timers and the panel geometry, which
  is computed in floating point.
- `tests/` exercises the core.
