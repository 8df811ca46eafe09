# key_monitor

The verified core of a small desktop log viewer that also keeps a Windows
machine awake by pressing NumLock periodically.

- `src/logger/` — severities and filters (`level`), the log sink and the line
  format (`collector`), and which lines are displayed in which colour (`view`).
- `src/logging.rs` — the earlier variant of the view, in which unmarked lines
  count as information, and its newline-terminated format.
- `src/keyboard_controller.rs`, `src/keyboard_input.rs` — the decisions of the
  key press threads as state machines, thread naming, and the stop signal.
- `src/window.rs` — the main window's reactions to clicks.
- `src/text.rs` — substring search and decimal notation.
- `app/` — the egui window, the env_logger setup, the threads and the Windows
  key events, driving the library.
