# dorisctl

A command-line client for Apache Doris: named connection profiles, SQL
queries and an interactive shell, schema inspection and DDL diffs, Stream
Load, cluster administration, and bridges to Iceberg, Spark and PostgreSQL.

## Layout

- `src/` is the library, written in Verus. Every executable function there
  carries a `requires`/`ensures` contract that Verus proves:
  - `config`: profiles and defaults; `ProfileSet` keeps its entries sorted
    by name under a type invariant and is viewed as a `Map`.
  - `query`: where SQL comes from, how its result is reported, and the
    interactive shell as a state machine (`Repl::step` against `repl_step`).
  - `schema`, `describe`, `statements`, `diff`: DDL splitting, previews,
    `DESCRIBE` layouts and line diffs.
  - `spark`, `postgres`, `iceberg`: type mappings and generated DDL/schemas.
  - `load`, `admin`, `profile`, `connection`, `http`, `output`: request
    paths and headers, Base64 and Basic auth, tables, JSON records and CSV.
  - `text`, `order`: string specifications shared by the rest.
  - `laws`: properties that span several functions, proved once.
- Calls into comfy-table, csv, similar and std's case mappings stand behind
  small trusted wrappers whose contracts say what those crates document.
- `app/` is the program around the library: argument parsing, the
  configuration file, MySQL and HTTP transport, the terminal, and the loops
  of the shell, of `schema apply` and of the export-all commands, whose every
  step a function of `src/` decides (`Repl::step`, `apply_step`,
  `emit_all_step`, `export_all_step`). JSON text is written there with serde
  from records and schemas that `src/` builds.
- `tests/` runs the library on concrete values.
