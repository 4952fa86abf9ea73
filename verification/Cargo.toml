[package]
name = "ledger_crypto"
version = "0.1.0"
edition = "2021"
publish = false

[dependencies]
blake3 = "1"
ed25519 = "1"
ed25519-dalek = "1"
rand = "0.7"
serde = { version = "1", features = ["derive"] }
serde_json = "1"
thiserror = "1"
