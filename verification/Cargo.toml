[package]
name = "tower_defense"
version = "0.1.0"
edition = "2021"
publish = false

[dependencies]
rand = "=0.9.5"
solana-sdk = "=5.0.0"
solana-pubkey = { version = "=4.4.0", features = ["curve25519"] }
