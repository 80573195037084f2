# block_gain

The gain models of a guitar and bass rig: for each model its parameter
schema, the captures it was recorded at, and how a setting selects one.

- `src/` is the verified library. `schema.rs`, `capture.rs`, `text.rs`,
  `error.rs` and `model.rs` hold the shared model of schemas, capture tables,
  messages and registry entries; each `nam_*` / `lv2_*` file is one model with
  its schema, its selection rules and the laws proved of them; `registry.rs`
  lists the model ids. Numbers of schemas are kept in hundredths.
- `tests/` runs the library on concrete settings.
- `app/` is the host side: it reads parameter sets, converts schemas to the
  host's types, loads captures and plugins, and keeps the floating-point grid
  searches.
