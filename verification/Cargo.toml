[package]
name = "cmd_cache"
version = "0.1.0"
edition = "2021"
publish = false

[dependencies]
rust-crypto = "0.2.36"
chrono = "0.4"
tempfile = "3"

[dev-dependencies]
rand = "0.7"
