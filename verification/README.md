# codex_api_switcher_core

The logic of Codex API Switcher, a Windows tool that switches Codex between
custom Responses API providers and the official OpenAI mode, written in
Verus with its behaviour stated in `requires`/`ensures` contracts.

## Layout

- `src/switcher/`: the provider switcher. Validation of provider drafts and
  settings (`store`), the edits of `config.toml` and `auth.json` and the laws
  that relate a switch and a restore (`config`, `auth`), the model catalog
  (`catalog`), backups and restores (`backup`), session metadata
  (`sessions`), the switch and the restore of official mode as a state
  machine whose invariant holds that Codex's files change only after a
  backup and that every failure after it is rolled back (`flow`), the
  decisions those transactions take at each step (`transaction`), and Codex
  Desktop scripts and DevTools commands (`desktop`).
- `src/profiles/`: the earlier profile switcher: its database
  normalisation, profile editing plans, templates, log masking, WSL targets,
  session rewriting, connection tests, and the switch of the selected
  targets as a state machine that restores written targets in reverse order
  after a failure (`pipeline`).
- `src/json.rs`, `src/toml_doc.rs`, `src/text.rs`, `src/pattern.rs`: JSON
  values, TOML documents (through `toml_edit`), text operations and regular
  expressions (through `regex`) as the library reads them.
- `src/fresh.rs`: the current time and random identifiers (through `chrono`
  and `uuid`), of which nothing is stated but what their documentation
  gives.
- `app/`: the program around the library: file and network I/O, processes,
  SQLite, DPAPI, the Windows APIs, and the serde forms of the data model. It
  runs the two state machines, doing the outside work each phase names.
- `tests/`: tests of the library on concrete values.

Timestamps are Unix nanoseconds (UTC) in the library; `app/` converts them
to and from `chrono` values.
