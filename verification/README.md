# knishio_client

A client library for the KnishIO ledger, written in Verus: molecules and their
atoms, GraphQL queries and mutations, the responses a node sends back, rules and
access policies, and encrypted storage of master secrets. The behaviour of each
function here is stated in its `requires` / `ensures` and proved; where an
outside crate decides (the clock, random bytes), the contract says what holds
whatever it gives. Signing and verifying molecules, their one-time-signature
hashing, wallet key derivation and the JSON form of single atoms are not part
of this library; the JSON form of a molecule takes its atoms' JSON as given.

Layout:

- `src/` — the verified library.
  - `molecule/` — molecules, their JSON form, the typed builder, and the
    normalisation of hashes for signing; the value-transfer laws (what a
    transfer takes from the source wallet, gives the recipient and leaves as
    remainder).
  - `query/`, `mutation/` — GraphQL documents and their variables.
  - `response/` — node answers: the generic response, one type per query and
    mutation, the factory that picks one by name, and standard responses.
  - `rules/`, `policy_meta/` — conditions, callbacks, rules and metadata
    policies, with their JSON round trips.
  - `storage/` — key-value backends and secret providers: an in-memory one and
    an AES-256-GCM envelope (PBKDF2-HMAC-SHA256 key) one.
  - `json.rs`, `keyed.rs`, `text.rs`, `numeric.rs` — JSON values, association
    lists read as maps, and text helpers.
- `tests/` — tests of the library.
- `app/` — ordinary Rust around the library: JSON text and `serde` forms, a
  file-backed store, asynchronous secret storage and sequencing of operations.
