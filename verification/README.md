# leveler_tui

The rules of a coding agent's terminal interface, verified with Verus: what each screen
shows, how text is measured, cut and wrapped, how state changes with an event, and what
the event loop does next.

- `src/` is the library. Every function states what it returns or changes, over views of
  its data (`model.rs`, `line.rs`) and spec functions beside it. Calls into other crates
  (`unicode-width`, `unicode-segmentation`, `textwrap`, `serde_json`, `toml_edit`,
  `chrono`, `ratatui`'s layout) stand behind small wrappers with doc comments that say
  what is taken from them.
- `tests/` runs the library with those crates linked.
- `app/` is ordinary Rust around it: drawing with `ratatui`, input with `crossterm`, the
  `tokio` event loop, files, the clipboard and the environment. It is generic in the
  runtime's client and in the workbench that folds events into the state.

## Layout

| Module | What it holds |
| --- | --- |
| `strings`, `number`, `seconds`, `width`, `line`, `model`, `geometry` | texts, numbers, columns, styled lines, rectangles |
| `i18n`, `theme`, `theme_config` | the two languages, the palettes, the theme in the config file |
| `protocol`, `transcript`, `state`, `composer`, `overlay`, `screen` | the data, and the slash commands, mentions and filters |
| `json`, `tool_taxonomy`, `tool_cell` | tool calls and what they are about |
| `render::*` | the rows of every screen |
| `secondary`, `status_line`, `splash`, `selection`, `suggestion`, `skills_view` | chrome, status, the empty state, selecting text |
| `terminal`, `terminal_title`, `project_files`, `delivery`, `run` | the decisions of the event loop |
