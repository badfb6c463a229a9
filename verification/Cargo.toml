[package]
name = "hap_pairing"
version = "0.1.0"
edition = "2021"
publish = false

[dependencies]
chacha20-poly1305-aead = "*"
rust-crypto = "*"
ring = "0.16"
srp = "0.4"
sha2 = "0.8"
uuid = "*"
rand = "0.8"
futures = "0.1"

[dev-dependencies]
num = "0.2"
