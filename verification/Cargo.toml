[package]
name = "totp_generator"
version = "0.1.0"
edition = "2021"
publish = false

[dependencies]
base32 = "=0.4.0"
totp-rs = "=5.7.2"
clipboard = "=0.5.0"
iced = { version = "=0.9.0", default-features = false, features = ["glow", "tokio"] }
