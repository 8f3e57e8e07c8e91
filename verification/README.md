# focus

A command-line and terminal-dashboard tracker for deep-work sessions, with a
Pomodoro timer, per-tag reports, TODOs and streaks.

The logic lives in `src/`, written in Verus and proved against its contracts:

- `pomodoro/` — the timer state machine (`run` is the specification of a
  tick; `law_ticks_compose` shows that two ticks equal one), the resolution
  and validation of durations, the streak rules and the idle panel.
- `tui/` — the dashboard: its state (`app.rs`), the key handler as a step
  from state and key to state and `Effect` (`events.rs`, with its laws), the
  vim-aware text input and keyboard, the big-digit clock, the report metrics
  and the texts of the views.
- `commands/` — what each command checks and prints, as functions from
  values to lines.
- `models/`, `display/`, `theme/`, `error.rs`, `text.rs` — the data, its
  formatting, the colour palettes, the error messages and string helpers.
- `calendar.rs` and `clock.rs` — the trusted boundary to `chrono` and to the
  system clocks; their contracts say only what the libraries document.

`app/` is the program around it: argument parsing, the SQLite store, the
configuration files, notifications, and the terminal loop that performs each
`Effect` and reports the outcome back to the library.
