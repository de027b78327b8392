[package]
name = "pg_handshake"
version = "0.1.0"
edition = "2021"
publish = false

[dependencies]
async-trait = "*"
futures = "*"
pgwire = "*"
tokio = { version = "*", default-features = false, features = ["sync"] }
