# payplan

The decision logic of the PayPlan pay plan platform, written in Verus and
proved against its contracts, and a small server around it.

- `src/` — the verified library: role and route gating, bearer and cookie
  sessions, token claims, the steps of signing in, single-use refresh
  rotation and signing out, request validation with the tenant guards, stored
  status texts and column layouts (with their round trips), event payloads,
  the scheduled jobs' events, the engine's capped cascade, the projection rows and their upserts,
  and the administration UI's rules (redirects, cookies, origin checks,
  pagination, stylesheet link and content security policy).
  Password hashing (argon2), UUID text (uuid) and HS256 token signing and
  checking (jsonwebtoken) are called through a few trusted wrappers whose
  contracts are stated in `src/passwords.rs`, `src/events.rs` and
  `src/tokens.rs`.
- `tests/` — tests of the library on concrete values.
- `app/` — the `payplan-server` binary: environment settings, Postgres I/O
  with sqlx, the JSON form of token claims, the axum JSON API and the UI form
  actions. It hands plain values to the library and acts on what it returns.

Run `verus` on `src/lib.rs` to check the proofs.
