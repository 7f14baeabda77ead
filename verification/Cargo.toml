[package]
name = "hpke_rs"
version = "0.1.0"
edition = "2021"
publish = false

[dependencies]
aes-gcm = "0.10"
chacha20poly1305 = "0.10"
getrandom = "0.2"
hmac = "0.12"
p256 = { version = "0.13", features = ["ecdh"] }
p384 = { version = "0.13", features = ["ecdh"] }
p521 = { version = "0.13", features = ["ecdh"] }
serde = { version = "1", features = ["derive"] }
sha2 = "0.10"
x25519-dalek = "2"
x448 = "0.6"
