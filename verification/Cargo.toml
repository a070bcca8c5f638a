[package]
name = "scash_signer"
version = "0.1.0"
edition = "2021"
publish = false

[dependencies]
bitcoin = "0.32"
bech32 = "0.11"
bip39 = { version = "2", features = ["rand"] }
hex = "0.4"
serde = { version = "1", features = ["derive"] }
anyhow = "1"
