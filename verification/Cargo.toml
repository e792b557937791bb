[package]
name = "aead_envelope"
version = "0.1.0"
edition = "2021"
publish = false

[dependencies]
ring = "*"
rustc-serialize = "*"
serde_json = "*"
serde = { version = "*", features = ["derive"] }
