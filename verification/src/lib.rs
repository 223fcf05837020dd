//! Starknet cryptography over 32-byte little-endian buffers: Pedersen and Poseidon
//! hashing, Stark-curve ECDSA and RFC 6979 nonces.
//!
//! Every entry point takes its buffers as optional references (a missing buffer is
//! refused with -1), reads each 32-byte input as the field element its little-endian
//! integer leaves modulo the Stark prime, and writes results as canonical encodings.
pub mod field;
pub mod curve;
pub mod stark;
pub mod pedersen;
pub mod poseidon;
pub mod ecdsa;

pub use ecdsa::{
    starknet_crypto_public_key, starknet_crypto_rfc6979_nonce, starknet_crypto_sign,
    starknet_crypto_verify, starknet_crypto_verify_checked, verify_may_reach_infinity_test,
};
pub use pedersen::starknet_crypto_pedersen_hash;
pub use poseidon::{
    starknet_crypto_poseidon_hash, starknet_crypto_poseidon_hash_2,
    starknet_crypto_poseidon_hash_many, starknet_crypto_poseidon_hash_single,
};
