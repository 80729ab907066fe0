[package]
name = "field25519"
version = "0.1.0"
edition = "2021"
publish = false

[dev-dependencies]
curve25519-dalek = { version = "4.1.3", default-features = false }
