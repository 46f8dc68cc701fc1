# loanme_webapi

The loanMe web API: users register with a credit profile, confirm their
signup by mail, log in with sessions kept in Redis, offer and request
loans, propose to take up an offer or a request (the loan's creator is
mailed), accept a proposal, which completes the loan (the proposer is
mailed), and record payments.

- `src/` is the verified library (Verus): accounts and Argon2 passwords,
  random ids, Redis keys and sessions, mails, loans, proposals, payments,
  and the decisions of the HTTP handlers, written as step functions from a
  state and an event to the next state and an action (the access guard,
  login, registration, signup confirmation, the profile page, password
  and credit changes, password restores, loan proposals and their
  acceptance, loan creation, payments).
- `app/` is the server: axum routes, PostgreSQL (sqlx), Redis and SMTP
  (lettre) calls, JSON types; it runs the library's step functions and
  performs the actions they ask for.
- `tests/` exercises the library.
