[package]
name = "asciicam"
version = "0.1.0"
edition = "2021"
publish = false

[dependencies]
image = { version = "*", default-features = false }
nokhwa = { version = "*", features = ["input-native"] }
anyhow = "*"
