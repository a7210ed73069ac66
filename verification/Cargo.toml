[package]
name = "zkk"
version = "0.1.0"
edition = "2021"
publish = false

[dependencies]
sha2 = "0.10"
hex = "0.4"
base64 = "0.22"
ed25519-dalek = "2"
rsa = "0.9"
rand = "0.8"
