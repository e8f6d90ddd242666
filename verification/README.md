# stp

A terminal panel for workspace terminals kept in tmux: a registry of managed
terminals, a wire protocol for the PTY broker, and the panel views.

- `src/` is the verified library: the protocol codec (`protocol`), the registry
  and its JSON file format (`registry`, `decode`, `json`), zombie cleanup
  (`cleanup`), the CLI's command decisions (`commands`, `cli`, `state`,
  `workspace`), the tmux panel (`panel`) and the native panel's state, input,
  layout and loop decisions (`tui`).
- `app/` is the `stp` binary: argument parsing, files, git and tmux processes.
- `tests/` exercise the library on concrete values.
