[package]
name = "quizzler"
version = "0.1.0"
edition = "2021"
publish = false

[dependencies]
bech32 = "=0.9.1"
sha2 = "=0.10.9"
ed25519-zebra = "=5.0.0"
cosmwasm-std = { version = "=3.0.10", features = ["stargate"] }
serde = { version = "=1.0.229", features = ["derive"] }
cw-utils = "=3.0.0"
