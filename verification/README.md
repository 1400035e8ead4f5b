# utui

A terminal front end for Unity's command-line tool: list, open, create and
delete projects, install and remove editor versions, and browse a help menu
of the key bindings.

The logic is written in Verus and proved against its contracts:

- `src/app.rs` and `src/app/`: the application state and how it reacts to
  keys (`keys.rs`), to background work that starts, runs and finishes
  (`reload.rs`, `items.rs`, `wizard.rs`, `tasks.rs`), with laws about the
  whole (`laws.rs`), about how background work is asked for and freed
  (`bookkeeping.rs`), and about declining to log in (`declining.rs`). Outside work is requested as `Effect`s.
- `src/help.rs`: the help table, its rows, the selection and the scrolling.
- `src/fuzzy.rs`, `src/sort.rs`: fuzzy filtering of suggestions (scores come
  from `rust-fuzzy-search`) and stable case-insensitive sorting.
- `src/records.rs`: the tab-separated records in which the Unity tool answers,
  and the projects, editors, templates and login status read from them.
- `src/model.rs`, `src/list.rs`, `src/text.rs`, `src/duration.rs`: dialogues,
  the text field, list selection, string helpers and time formatting.

`app/` is the program around the library: it runs the Unity tool on
background threads, reads directories and the clipboard, and draws the screen
with `ratatui`.
