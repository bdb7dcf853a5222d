[package]
name = "zenth_client"
version = "0.1.0"
edition = "2021"
publish = false

[dependencies]
sha2 = "0.10"
sha3 = "0.10"
x25519-dalek = { version = "2", features = ["static_secrets"] }
pqcrypto-dilithium = "0.5"
pqcrypto-traits = "0.3"
chacha20poly1305 = "0.10"
rand = "0.9"
rand_chacha = "0.9"
argon2 = "0.5"
base64 = "0.22"
hex = "0.4"
serde = { version = "1", features = ["derive"] }
serde_json = "1"
