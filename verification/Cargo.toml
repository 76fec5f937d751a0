[package]
name = "badcoin"
version = "0.1.0"
edition = "2021"
publish = false

[dependencies]
chrono = "0.4"
hex = "0.4"
rand = "0.8"
secp256k1 = { version = "0.28", features = ["rand-std"] }
sha2 = "0.10"
