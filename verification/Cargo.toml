[package]
name = "qubit_progress"
version = "0.6.0"
edition = "2021"
publish = false

[dependencies]
log = "0.4"
serde = { version = "1", features = ["derive"] }
serde_json = "1"
qubit-fast-cas = "*"
