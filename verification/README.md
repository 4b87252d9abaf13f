# procwire-client (verified core)

Rust client of the Procwire IPC protocol, with its protocol logic verified
by Verus.

- `src/` — the verified library: the 11-byte wire header and its
  validation, the incremental frame parser, frames and batches on their way
  out (including how a partially written batch resumes), backpressure
  accounting, the `$init` message as exact JSON text, control-line parsing,
  the handler registry (method and event IDs), the rules a request context
  follows when it answers, the authentication handshake and frame routing of
  the client, and pipe naming. Calls into `bytes`, `serde_json` and
  `rmp-serde` stand behind small trusted wrappers whose contracts say what
  those crates do.
- `app/` — the runtime around it: Tokio tasks, the pipe listener, stdio,
  the writer task, the async request context and the `Client`.
- `tests/` — tests of the library, run against the real outside crates.
