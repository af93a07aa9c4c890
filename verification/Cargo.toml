[package]
name = "crypto_native"
version = "0.1.0"
edition = "2021"
publish = false

[dependencies]
aes-gcm = "0.10"
ed25519-dalek = "1"
hkdf = "0.12"
neon = "1"
ring = "0.17"
sha2 = "0.10"
x25519-dalek = { version = "2", features = ["static_secrets"] }
