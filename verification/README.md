# forgeclaw

Shared domain types, configuration rules and the host/container IPC
protocol core of forgeclaw, verified with Verus.

## Layout

- `src/` — the verified library.
  - `id`, `error`, `command`, `event`: identifier newtypes (non-blank, at
    most 128 characters, carried as a type invariant), error classes and
    their display texts, command and event payloads.
  - `config`: the configuration model's cross-reference rules, the size
    guard and the mapping of `FORGECLAW_*` environment variables to
    configuration paths.
  - `config_tree`: layered configuration documents — deep merge, nested
    set, environment overrides — with laws relating them to path lookup.
  - `ipc`: the wire protocol — frame codec, message model with bounded
    text and collections, versioning and semantics profiles, connection
    lifecycle, forward-compatibility and unknown-traffic budgets, outbound
    validation, the client session state machines (before and after the
    handshake), socket path policy, socket directory checks and bind
    attestation.
  - `text`: string building with exact specifications.
- `tests/` — tests run against the compiled library.
- `app/` — the runtime around the library: TOML and environment loading,
  the serde wire format, tokio transport for the Unix-socket client and
  server, filesystem work for the socket directory, and the event and
  command buses.

Run `verus` on `src/lib.rs` to check the proofs.
