# mize_dev

The development module of mize, with its logic verified by Verus.

- `src/` is the verified library: the registry of buildables (`data`), build
  configurations (`config`), the pipe and helper line protocols (`protocol`),
  the build status board (`board`, over the name-keyed tables of `table`), the
  terminal interface's state machine (`tui`), the commands the module runs
  (`commands`), error messages (`error`), and text and lookup primitives
  (`text`, `keys`). Public proof functions named `law_*` state the properties
  that hold across operations.
- `app/` is the unverified shell around it: the build helper program
  (`main.rs`), the module's command line, processes, threads and stored data
  (`dev.rs`, `wire.rs`), and the ratatui interface (`tui.rs`).
- `tests/` exercises the library on concrete values.
