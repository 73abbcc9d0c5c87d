[package]
name = "tx_lifecycle"
version = "0.1.0"
edition = "2021"
publish = false

[dependencies]
typedb-driver = { version = "2", features = ["sync"] }
typeql = "2"
