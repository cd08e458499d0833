[package]
name = "static_files"
version = "0.1.0"
edition = "2021"
publish = false

[dependencies]
quote = "0.3"
rocket = { version = "0.5", default-features = false }
rust-crypto = "0.2"
state = { version = "0.5", features = ["tls"] }
