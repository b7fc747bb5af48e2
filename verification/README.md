# rust_postgres

A user and product web service (sign-up, sign-in with bcrypt passwords and
HS256 tokens, TOTP multi-factor authentication, product search, profile
updates and pictures) whose request-handling rules are a Verus-verified
library.

- `src/` is the library. Each request handler is a small state machine:
  a `*_start` function and a `*_step` function that, from the handler's
  state and what the server reports back (a row count, a looked-up user, a
  file-system outcome), give the next state and the next action (a query to
  run, a file to write, the answer to send). Their contracts relate the
  answer and the work asked for to the request and to what was reported;
  where an outside call decides (the clock, the random source, a bcrypt
  hash), they state what holds of every outcome.
  `src/utils/` holds password hashing, token issuing and decoding, TOTP and
  base32, text helpers and bearer-token parsing; calls into bcrypt,
  jsonwebtoken, rand, totp-rs, base32, data-encoding and serde_json are made
  there through small trusted wrappers whose contracts are documented in
  place.
- `app/` is the axum server: routing, the database (sqlx/PostgreSQL), the
  file system, environment variables, and the JSON bodies. It runs the state
  machines of `src/` and performs their actions.
- `tests/` runs the library on concrete values.
