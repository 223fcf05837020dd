# starknet_crypto_ffi

Starknet cryptography (Pedersen and Poseidon hashes, Stark-curve ECDSA, RFC 6979
nonces) over 32-byte little-endian buffers, verified with Verus.

- `src/field.rs` — the Stark field, the little-endian encoding and its lemmas.
- `src/curve.rs` — curve points and the exact inputs on which verification reaches
  the point at infinity, with their trusted calls.
- `src/stark.rs` — the calls into `starknet_crypto`, with their trusted contracts.
- `src/pedersen.rs`, `src/poseidon.rs`, `src/ecdsa.rs` — the entry points: missing
  buffers, return codes, input splitting and seed handling, with their laws;
  `starknet_crypto_verify_checked` first tests whether verification would reach the
  point at infinity, where the underlying call panics.
- `app/lib.rs` — the C ABI: inputs are copied out of raw pointers, outputs copied back.
