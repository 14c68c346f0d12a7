# service_kit

Building blocks for web services, verified with Verus:

- `signed_data`: bytes with an Ed25519 signature, framed and written as base64, and the values
  encoded in them. `ed25519` and `encoding` hold the keys and the base64 engines.
- `axum_extractors`: CBOR bodies (`cbor`) and signed tokens in cookies (`token`), with the replies
  to requests that have none (`reply`).
- `sqlx_transaction`: which errors of a PostgreSQL server are worth another try, how a transaction
  begins, and the loop around a transaction that is tried again (`retry`), as a state machine.

Signatures, base64, cookies, media types and header values are left to the crates that services
use for them. Each call into one of these stands behind a small function whose comment says what
is taken on trust. Serialisation comes in as a closure, so what is proved holds for every format.

Statements about several calls are proof functions whose names begin with `law_`.

`app/` connects the library to `axum`, `sqlx` and `ciborium`.
