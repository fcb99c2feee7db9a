[package]
name = "pki_store"
version = "0.1.0"
edition = "2021"
publish = false

[dependencies]
arc-swap = "1"
async-trait = "0.1"
chrono = "0.4"
openssl = "0.10"
serde = { version = "1", features = ["derive"] }
tokio = { version = "1", features = ["rt", "sync", "time"] }
url = "2"
