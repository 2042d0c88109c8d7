[package]
name = "cargo_clone"
version = "0.1.0"
edition = "2021"
publish = false

[dependencies]
cargo = "0.42"
failure = "0.1"
semver = "0.9"
serde = { version = "1", features = ["derive"] }
ureq = { version = "2", features = ["json"] }
walkdir = "2"
