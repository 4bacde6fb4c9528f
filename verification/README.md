# download_manager

A terminal download manager whose core is verified with Verus.

- `src/` — the verified library: the URL editor (`insert`), the table and its
  selection (`list_state`), download jobs and how a row of the table reads
  (`job`), events, keys and effects (`app_event`), the application state and its
  reaction to each event (`app`), key bindings (`key_events`), the backend's
  decisions — retries, header reading, byte ranges (`download`), screen texts
  and sizes (`view`), and decimal rendering (`text`).
- `app/` — the program: terminal drawing with ratatui, keyboard input with
  crossterm, network and files with reqwest and tokio. It feeds events to the
  library and carries out the effects the library returns.
- `tests/` — tests of the library on concrete values.
