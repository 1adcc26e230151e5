# oar-core storage

The Postgres storage layer of OAR, the weekly OKR review inbox for Feishu /
Lark tenants. The decisions the storage layer takes — how domain values are
stored and read back, which audit outbox payloads may leave the database,
what a review decision must agree on before it is written, how the operation
ledger answers a replayed transition, how an outbox drain counts its
messages, when a logout revokes a user's grants, how a review decision, an
execution step and a confirmed recovery proceed from one database answer to
the next — live in `src/` and are verified with Verus. Two answers come from
the outside crates through trusted items whose contracts name them: whether
two JSON documents compare equal (`serde_json`), and the SQLSTATE code of a
driver error (`sqlx`). That one ledger operation exists per tenant and
idempotency key is kept by the database's unique key, not by this code.

- `src/` — the verified library (`oar_core`): codecs, row decoders, payload
  and text redaction rules, ledger and recovery decisions, the step-by-step
  flows of decisions, executions and recoveries, and the laws they obey as
  proof functions.
- `app/` — the Postgres plumbing around it: pools, statements, transactions,
  the outbox dispatcher, and the library's error with `Display`. It performs
  the steps the library decides and hands back what the database answered.
- `tests/` — tests of the library on concrete values.
