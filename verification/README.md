# veyra

The verified core of the Veyra proxy client: the stored application state and
its validation, subscriptions (import, update, edit, delete, documents and
their revisions, scheduling), node pools and routing rules, the projection of
the selected subscription into a runtime configuration, the lifecycle of the
managed core process, and the in-memory observation of that runtime.

## Layout

- `src/` is the library, verified by Verus: the public functions carry
  `requires`/`ensures` contracts, and the private helpers are checked
  against whatever contracts they state (some state none and are verified
  only for absence of overflow and panics). Operations that read or write storage, talk to
  the network or drive the core process are split: the library decides each
  step (what to save, which answer to give, which phase to record), and the
  caller performs the work in between.
- Calls into other crates go through a few small trusted functions, each
  documented with what its contract claims: SHA-256 digests (`sha2`), random
  bytes (`getrandom`), URL parsing (`reqwest::Url`), UTF-8 decoding (`std`),
  and JSON/YAML reading of Clash documents (`serde_json`, `serde_yaml_ng`).
- `tests/` runs the library on concrete values.
- `app/` is the unverified shell: the JSON wire forms, the HTTP fetch of remote
  subscriptions, and the worker and scheduler passes that sequence the
  library's steps around storage, clocks and cancellation.
