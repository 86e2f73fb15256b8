# shelldon

A developer-workspace launcher: a project configuration (JSON) names a
terminal, a layout, panes (title, directory, command) and helper programs;
launching it opens the terminal, splits it into the panes, changes to each
pane's directory and runs its command.

The library (`src/`) is verified with Verus. It plans launches as lists of
process calls (`plan`, `terminal`, `launcher`), runs them step by step
through a small state machine (`plan::Execution`), names, orders and finds
stored projects (`config`), and drives the command line as a conversation
(`cli`). Strings are specified over their characters (`text`).

`app/` holds the program around it: argument parsing (clap), project files
on disk (serde_json), running processes, and the desktop window (tauri).
