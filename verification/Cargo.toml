[package]
name = "aes_gcm_siv"
version = "0.1.0"
edition = "2021"
publish = false

[dependencies]
aes = { version = "=0.9.3", features = ["zeroize"] }
polyval = { version = "=0.7.3", features = ["zeroize"] }
