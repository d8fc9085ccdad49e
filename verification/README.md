# budget_api

A small personal-budget web service: users sign up, keep spending categories
that carry a balance, and book credit or debit transactions against them.

- `src/` is the verified library (Verus). Each HTTP route is a state machine
  in `handler`: it asks the data store one query at a time and decides from
  each answer what to ask next, what to reply, or that it gives up.
  `ledger` holds the balance rules, `access` the ownership checks, `reply` the
  replies, `accounts` the password hashing of a new user, and `guarantees` the
  properties proved of every handler run (ownership is checked before any
  record is changed, every request is settled after a bounded number of
  queries, removing a transaction hands the store the balances from before
  its booking, sign-up keeps emails unique, and a category listing shows the
  requester's rows and nothing else). The category balance query adds the value it is given to the
  stored balance, so in a real run the stored category balance is not
  restored by a removal; the user balance is.
- `app/` is the executable around it: actix-web routes, the MySQL queries
  (sqlx), JSON (serde), CORS and rate limiting. It runs each handler against
  the database until the handler replies.
- Authentication is not part of this crate: a middleware that checks the
  request's JWT and stores the user's id in the request extensions must be
  mounted on `/api`. Without it, every `/api` request fails in `app/`.
- `tests/` exercises the handlers and rules on concrete values.
