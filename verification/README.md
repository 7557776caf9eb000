# dbterm

A terminal client for databases. The library in `src/` holds the verified
logic, with its contracts checked by Verus:

- `data`: the saved connections (`Data`), connection URLs, the commands the
  screens send to the store, and the store's decisions (`plan_command`,
  `reply_to`, `query_output`).
- `screens`: the connection screen (list and new-connection form) and the main
  (query) screen, each as a state machine from terminal events to a new state
  and an optional command.
- `app`: which screen is shown, the status bar, event dispatch
  (`App::handle_event`) and drawing events (`App::apply_render_event`).
- `widgets`: button, picker, popup, radio group and status line state.
- `events`, `textarea`, `layout`, `text`: the event model, the text editing
  fields, screen areas, and number and string helpers.

`app/` is the program around it: terminal setup, the event, drawing and store
loops, drawing with `ratatui`, storage of the connections as JSON, and the
Postgres pool.
