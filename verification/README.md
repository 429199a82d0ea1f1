# oracode

`oracode` exports the objects of an Oracle schema as clean, stable DDL files,
one `.sql` file per object, in a directory per object kind, for version
control.

## Layout

- `src/` — the verified library (Verus):
  - `kind.rs`: object kinds and their `ALL_OBJECTS` / `DBMS_METADATA` names;
  - `selection.rs`: the default kind set and include/exclude selectors;
  - `sql.rs`: the dictionary queries that list objects;
  - `objects.rs`: objects from `ALL_OBJECTS` rows, dependent objects and grants;
  - `metadata.rs`: `DBMS_METADATA` session parameters, tolerated errors, DDL queries;
  - `schema.rs`: schema-name lookup (quoted names, upper-case retry);
  - `sanitize.rs`, `keywords.rs`: DDL clean-up;
  - `export.rs`: export settings, file names and paths, collision check,
    rewrite decision, totals;
  - `cli.rs`: command-line settings and the connect descriptor;
  - `text.rs`: character and string helpers.
- `app/main.rs` — the command-line program: argument parsing (clap), the
  Oracle session (oracle), concurrency and file I/O (tokio), the progress bar
  (indicatif) and error reporting (thiserror).
- `tests/` — tests of the library.
