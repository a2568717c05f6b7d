# gateway

The policy, billing and validation rules of an API gateway's control plane,
written in Verus and proved against their contracts.

## Layout

- `src/` — the verified library, one module per concern:
  - `text`, `decimal`: text checks and the fixed-point USD amount type.
  - `crypto`: SHA-256, URL-safe base64, Argon2, randomness and UUIDs, each
    behind a trusted contract.
  - `policy`, `budget`, `settlement`, `ledger`: client key policies, budget
    windows, charge settlement and admission against key and account budgets.
  - `subscription`, `billing_rules`, `requests`: plans, subscriptions, credits
    and the checked commands built from wire requests.
  - `users`, `auth`, `identity`: accounts, passwords, sessions, login protection
    and the stored account rows.
  - `login_flow`, `session_flow`, `password_flow`: the order of a login, of a
    session lookup and of a password change, one step per store answer.
  - `client_keys`: key list cursors, sorting and the key edit commands.
  - `admission`, `admission_rules`, `recovery`: the concurrency and rate
    admission store, its rules, and rebuilding its state after a restart.
  - `snapshot`, `usage`, `diagnostics`: the runtime snapshot of keys, the usage
    queries and the usage diagnostics.
- `tests/` — tests that run the compiled library.
- `app/` — what the library leaves to its caller: wire types with serde,
  error types with `Display`, the HTTP client of the verification service,
  clock readings.

Instants are microseconds since the Unix epoch unless a name says otherwise;
the admission rules work in milliseconds.
