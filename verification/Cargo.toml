[package]
name = "starknet_crypto_ffi"
version = "0.1.0"
edition = "2021"
publish = false

[dependencies]
starknet-crypto = "=0.8.1"
starknet-types-core = "=0.2.4"
