[package]
name = "ibc_handshake"
version = "0.1.0"
edition = "2021"
publish = false

[dependencies]
blake2 = "*"

[dev-dependencies]
hex = "*"
