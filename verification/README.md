# z8run

The verified core of z8run's lance seam and WASM plugin runtime.

`src/` is the library, checked by Verus:

- `json.rs` — a plain-value JSON model with exact accessors.
- `envelope.rs` — the control-plane envelope (`role`, `handle`,
  `generation`, `source`) and its JSON form, with the round-trip law.
- `plan.rs`, `boundary.rs` — the plan vocabulary (ids, coordinates,
  selections, measures) and the name/label tables configuration resolves
  through.
- `handles.rs` — the handle registry: sources by generation, plans and
  results by handle, the fold cache and its counters, the step that each
  node kind takes on it (open, rewrite, execute, re-view; a plan keeps the
  source it was made over), and the laws
  that stale handles fail closed and republishing forgets the source's
  folds.
- `nodes.rs` — node configuration (`Resolver`), what each node does with
  an envelope (`decide`), and the laws of the export terminal.
- `manifest.rs`, `plugins.rs` — plugin manifest rules, the plugin table,
  and the checks that admit, install and remove a plugin.
- `install.rs` — the order of those checks: the install and removal state
  machines that `app/` steps with what it read or did on disk.
- `table.rs`, `text.rs`, `stats.rs`, `error.rs` — helpers, shared
  atomic counters and errors.

`app/` holds what touches disk, locks, TOML and the reporting engine.
`tests/` exercises the library on concrete values.
