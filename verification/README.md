# threads_cli

A command-line client for the Threads API (publishing posts and replies,
reading posts, insights and replies back, and keeping a local record of
every publish attempt), built around a library whose logic is verified
with Verus.

## Layout

- `src/` — the verified library.
  - `text.rs`, `redact.rs`, `output.rs`: strings, redaction of secrets, JSON
    documents and the stable output envelopes.
  - `error.rs`, `config.rs`: error categories and their codes, configuration
    rules.
  - `client.rs`: the requests sent to the API and the mapping of failures to
    errors.
  - `store/`: the schema, the SQL statement of every store operation, and the
    retry policy for remote calls.
  - `cli/`: the logic behind each command; `cli/publish.rs` holds the publish
    state machine and the laws proved about its runs.
  - `trusted.rs`: the calls into `url`, `chrono`, `shellexpand` and std that
    the library relies on, with the contracts it assumes of them.
- `app/` — the program: argument parsing, HTTP, SQLite, files, the clock and
  printing.  It performs what the library decides.
- `tests/` — tests of the library on concrete inputs.
