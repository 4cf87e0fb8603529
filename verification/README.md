# openpista_tui

The terminal chat client of openpista as a verified library, with a thin
terminal front end.

- `src/` — the library, verified with Verus. Every public function states
  what it returns or changes over mathematical models (`Seq`, `Map`, views of
  the client state):
  - `text`, `keys`: text helpers (UTF-8 offsets, trimming, splitting) and the
    client's own key, mouse and rectangle types;
  - `state`, `app`, `editing`, `browse`, `providers`, `catalog`: the client
    state, the input box, the command palette, the model, session and login
    browsers, the session sidebar;
  - `input`, `wizard`: what a key press does in each mode;
  - `action`, `events`: the action/command state machine and the mapping of
    keys and mouse events to actions;
  - `commands`, `driver`: `/model` parsing, API key checks, stored
    credentials, login plans and the event loop's decisions;
  - `selection`, `qr`, `view`: text selection, QR codes and what each screen
    shows, as lines of coloured text;
  - `laws`: properties that span several operations.
- `tests/` — the tests, run against the compiled library.
- `app/` — the terminal program: terminal setup, event loop, drawing with
  ratatui, the credentials file.
