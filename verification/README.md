# Taskscape

A desktop to-do app: named task lists with undo and redo, a settings page, a
global shortcut for a compact window, and a link between the main window and
a tray service that mirrors the open list.

The app's decisions live in a library verified with Verus. Each window is a
state machine: `update` takes a message and returns the next state together
with the effects the host must carry out (save a list, send a message to the
tray service, open a dialog, …), and its contract states both exactly, over
a model of the state. Outcomes of the host's work come back through
`complete_*` methods with contracts of their own.

- `src/main_window/` — the main window: lists, settings, shortcut capture,
  the link's protocol, and its laws (`laws.rs`).
- `src/app/` — the combined main/tray app with its compact window, history
  and file handling, and its laws.
- `src/models/`, `src/theme.rs`, `src/text.rs` — tasks, filters, priorities,
  the theme switch and the text functions the contracts rest on.
- `app/` — the program: the iced main window, storage as JSON files, the
  socket to a tray service (used when one is running; this program does not
  start one), and the colours of the themes. The combined app in
  `src/app/` and the starter in `src/starter.rs` are verified but have no
  program here.
- `tests/` — tests of the library on concrete values.
