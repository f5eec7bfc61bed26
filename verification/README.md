# beads_rust

Validation rules, SQL script splitting and schema maintenance for a local
issue tracker, written in Verus with their contracts proved.

Layout:

- `src/text.rs`, `src/paths.rs`: character-level helpers (trimming, Unicode
  white space, ASCII case, path components) with their specifications.
- `src/validation.rs`: issue, dependency, label and comment validators, the
  identifier format (`src/id.rs`) and the sync safety checks on path texts.
- `src/sql_split.rs`: splitting an SQL script into statements, respecting
  quotes and comments.
- `src/schema/`: the schema itself, the facts read from a database layout
  (`facts.rs`), the statements planned from them (`plan.rs`), a step-by-step
  statement runner (`script.rs`) and the setup state machine (`driver.rs`).
  The library never touches a database: the caller answers its requests.
- `app/`: the database side, which answers those requests with an fsqlite
  connection, and `Path` adapters for the sync safety checks.
- `tests/`: scenario tests, run against the compiled library.
