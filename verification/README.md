# light-factory-tui

The terminal client of the light-factory coding platform, written as a verified
library plus a thin program around it.

- `src/` is the library, checked by Verus. The client is a state machine: `App`
  takes an event (a key, a server message, the outcome of a request) and returns
  the next state together with the effects to perform (`client.rs`). Around it
  stand the catalog of interface texts (`i18n.rs`), the command-line parsers
  (`commands.rs`), the connect / models / help popups (`modal.rs`,
  `modal_view.rs`), the credential stores, the OS keyring among them, and model
  selection (`credentials.rs`, `selection.rs`), the screen views (`screen.rs`, `engine_view.rs`) and popup
  geometry (`layout.rs`). `laws.rs` states properties that span several
  operations.
- `app/` is the program: argument parsing, files, HTTP and WebSocket traffic,
  the terminal loop that performs the effects, and drawing with ratatui.
- `tests/` exercises the library on concrete values.
