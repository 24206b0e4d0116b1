# anchor_rust

The business server of a Stellar anchor that runs behind the Anchor
Platform: it answers the platform's callbacks (`/customer`, `/rate`,
`/event`), hosts the SEP-24 interactive form, holds the distribution
account that signs payments, and watches Horizon for incoming payments.

## Layout

- `src/` — the library, verified with Verus. It holds the decisions of the
  service with their contracts: the KYC field tables, the flat fee and
  SEP-38 pricing, callback and session-token checks, what a platform event
  records and assigns, the matching of incoming payments, the SEP-24 and
  SEP-31 settlement steps, the payments the distribution account builds,
  signs and hashes, and the configuration. Calls into `rust_decimal`,
  `stellar_base`, `uuid`, `rand` and `chrono` stand behind small trusted
  wrappers whose contracts are documented where they are declared.
- `app/` — the program around the library: the axum routes, PostgreSQL
  storage (sqlx), the Platform API client (reqwest), the Horizon requests
  (sequence numbers, payment submission, the payment stream), the JWT
  decoding, and the background workers. Each
  step asks the library what to do and performs the I/O.
- `tests/` — tests of the library on concrete values.
