[package]
name = "bee_crypto"
version = "0.1.0"
edition = "2021"
publish = false

[dev-dependencies]
troika = "*"
