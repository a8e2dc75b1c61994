# kanban_tui

The state machine behind a terminal kanban board, written in Verus: the key
handlers of the projects panel, the task panel, the detail views and the
dialogs are executable functions whose contracts state how they change the
application state, and the library's promises (paging tiles the list, the
parent/child graph stays acyclic, a refresh keeps the selected card, ...)
are proof functions named `law_*`.

Some work is left to the front end and enters the library as arguments: the
task query's results (`ViewState::refresh_lists`), what the sprint picker
holds when it is confirmed (`SprintPick`), whether the picker has a sprint to
offer, and the external editor, clipboard and files that some handlers ask
for through the actions they return.

- `src/pagination.rs`: page boundaries and jump targets of scrolled lists.
- `src/keybindings/`: the key tables shown in each mode and the help popup.
- `src/scroll_indicators.rs`: text of the "N Tasks above/below" lines.
- `src/app/`: the model (boards, columns, cards, sprints, relations), the
  application state and its handlers, one module per area; `board_sort.rs`
  orders the projects list, `sprint_assign.rs` assigns cards to sprints.
- `app/`: the thin front end that maps terminal keys to `Key`, converts ids
  to and from UUIDs, and reads the import directory.
- `tests/`: scenarios run against the compiled library.
