# bead_forge

The verified core of bead-forge, a git-backed, repo-local issue tracker for
fleets of coding agents. The library holds what the tracker decides and
computes. Every function in `src/` carries a contract; Verus proves all of
them except the small trusted wrappers around outside calls (listed below),
whose contracts are taken on trust.

## Layout

- `src/` — the verified library, one module per concern:
  - `schema` — the SQLite DDL of every table and index;
  - `queries`, `changes`, `rows`, `children`, `dep_tree`, `rules` — the
    SQL text and bound values of issue listings, searches, the ready queue
    and claim scoring; what a change set, a close, a reopen and a new or
    re-imported issue write, with the labels, dependencies, comments,
    annotations and events stored beside it; the dependency-tree walk; and
    the rules on dependencies, labels and closing;
  - `readback` — turning the column values of a stored issue back into an
    issue, splitting its labels and grouping the rows stored beside issues;
  - `sync`, `retry` — how an import reconciles a bead with the stored one,
    auto-flush decisions, and the back-off of a busy database;
  - `velocity`, `dates` — worker velocity summaries and the date-time texts
    the database holds;
  - `timing`, `trace`, `subprocess`, `module_list`, `secrets`,
    `validation`, `update` — timers, trace names and paths, command
    results, module lists, the secret-refusal message, field
    normalization and single-field updates;
  - `text`, `paths`, `sorting`, `binary64` — the text, path, ordering and
    number-rendering facts the rest is stated with;
  - `clock`, `entropy`, `dates` — the calls into chrono, rand and sha2.
- Trusted wrappers (contracts believed, not proved): `clock::read_clock`
  (chrono's clock and renderings), `entropy::random_u32` and
  `entropy::random_bytes16` (rand), `entropy::sha256_digest` (sha2),
  `dates::parse_rfc3339` and `dates::parse_naive_utc` (chrono's parsers),
  and `text::string_from_chars` (std's collection of characters into a
  `String`).
- `tests/` — tests run against the compiled library.
- `app/` — the file, process and database plumbing around the library:
  running commands, persisting timers and traces, applying the schema,
  running the storage plans against SQLite (creating, reading back,
  updating, closing, reopening, listing, searching, scoring and importing
  issues; labels, comments, annotations, events and the dependency tree),
  and the velocity tables.
