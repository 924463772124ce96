[package]
name = "ledger_core"
version = "0.1.0"
edition = "2021"
publish = false

[dependencies]
k256 = { version = "=0.13.4", features = ["ecdsa"] }
ecdsa = { version = "=0.16.9", features = ["signing", "verifying"] }
sha2 = "=0.10.9"
serde = { version = "=1.0.229", features = ["derive"] }
rand_core = { version = "=0.6.4", features = ["getrandom"] }
