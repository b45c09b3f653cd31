[package]
name = "taproot_sig"
version = "0.1.0"
edition = "2021"
publish = false

[dependencies]
k256 = { version = "0.13", features = ["schnorr"] }
bitcoin-io = "*"
