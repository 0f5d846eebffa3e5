[package]
name = "drbg"
version = "0.1.0"
edition = "2021"
publish = false

[dependencies]
aes = "*"
hmac = "*"
sha2 = "*"
rand = "*"
hex = "*"
chrono = "*"
