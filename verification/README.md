# Passkey Auth

A passwordless WebAuthn plugin, `lenso.auth.passkey@1`: an authenticated user adds, lists and
revokes passkeys, and a trusted ingress authenticates a known subject with one of them. What the
plugin decides in Rust is verified with Verus. What the SQL statements decide (the order of rows,
the greater of two counters, what is old enough to prune) is not: `src/model.rs` describes it, and
the laws rest on that description. There an action that failed, a commit too, may have been performed
or not.

- `src/` is the verified library. Each operation is a state machine whose `start` and `resume`
  give the next action and take its reply; `model.rs` says what the actions do to the stored
  state, and `laws/` what holds of whole runs.
- `app/` is the linked plugin around it: PostgreSQL statements, calls of Identity Directory,
  Credential Issuer and Secrets, the wire forms of the contract, and the lifecycle.
- `tests/` runs the library, with a software authenticator and an in-memory database.

| Where | What |
| --- | --- |
| `config`, `origin`, `schema`, `activation`, `active` | configuration rules and activation |
| `authority` | configured callers, user assertions, directory status |
| `ceremony` | WebAuthn ceremonies |
| `request`, `text`, `identifier`, `instant` | what requests may hold, and notations |
| `receipt`, `command` | idempotency: intents, sealed receipts, replay |
| `storage`, `rows` | actions, replies, and how stored rows are read |
| `challenge`, `passkeys`, `authenticated` | steps that operations share |
| `begin_*`, `finish_*`, `list_passkeys`, `revoke_passkey` | the operations |
| `model`, `laws` | stored state, and the laws of whole runs |
