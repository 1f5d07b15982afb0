[package]
name = "attestations"
version = "0.1.0"
edition = "2021"
publish = false

[dependencies]
axum = "0.7"
blst = "0.3"
ethereum_ssz = "0.5"
eyre = "0.6"
hex = "0.4"
serde = { version = "1", features = ["derive"] }
sha3 = "0.10"
sqlx = { version = "0.7", default-features = false, features = ["sqlite", "runtime-tokio"] }
tokio = { version = "1", features = ["rt-multi-thread", "macros", "net"] }
tracing = "0.1"
