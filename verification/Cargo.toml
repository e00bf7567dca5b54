[package]
name = "yubihsm"
version = "0.1.0"
edition = "2021"
publish = false

[dependencies]
aes = "*"
cbc = { version = "*", features = ["alloc"] }
cipher = { version = "*", features = ["alloc", "block-padding"] }
cmac = "*"
hmac = "*"
pbkdf2 = "*"
rand = "*"
sha2 = "*"
subtle = "*"
zeroize = "*"
