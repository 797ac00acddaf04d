# docgen-rs

A terminal assistant that turns the git changes of a project and a short
form about them into a request for developer documentation.

- `src/` is the verified library: the diff model and how it is built from a
  diff walk (`git_diff`), the text sent to the model and the reading of its
  reply (`llm`), the application state and its operations (`tui::app`), key
  handling as a state machine (`tui::events`), the decisions behind the
  panels (`tui::widgets`), and text helpers over the Unicode white-space
  property (`text`).
- `app/` is the program around it: command line, terminal drawing, git and
  file access, the file dialog, the HTTP request and the cost in currency.
- `tests/` runs the library on concrete values.
