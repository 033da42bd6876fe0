[package]
name = "stellar_baselib"
version = "0.1.0"
edition = "2021"
publish = false

[dependencies]
stellar-strkey = "*"
sha2 = "*"
ed25519-dalek = "*"

[dev-dependencies]
stellar-xdr = { version = "*", features = ["next"] }
hex = "*"
