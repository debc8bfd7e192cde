# smop

Batteries-included scripting utilities, with their decisions verified by Verus.

- `src/` is the verified library. Each module states its behaviour as
  `requires`/`ensures` contracts over mathematical views (`Seq`, `Map`,
  `Option`), and the properties that span several calls are proved as public
  proof functions (`lemma_*`). Calls into outside crates (chrono, sha2,
  shellexpand, comfy-table, csv) go through small trusted wrappers whose doc
  comments say what their contracts claim.
  - `script`: declarative scripts — validation of steps and fields, Rust code
    generation, built-in templates, and the step-by-step decisions of a run.
  - `sh`: command descriptions, pipe chains and how their processes are wired,
    failure messages.
  - `env`, `cache`, `retry`, `http`, `path`, `time`, `print`, `archive`,
    `experimental`: the decisions behind environment lookups, cache entries,
    retries, HTTP client settings and failures, path expansion and executable
    checks, date parsing, tables, zip entry names, download sizes and an
    in-memory key-value store.
  - `fs`: the lines and CSV rows of file contents.
  - `text`: verified string helpers (line splitting, decimal rendering and
    parsing, trailing white space).
- `app/` is the `smop` command line and the I/O around the library: files,
  processes, HTTP requests, terminal output, archives and sleeping.
- `tests/` runs the library on concrete values.
