[package]
name = "algonaut_uri"
version = "0.1.0"
edition = "2021"
publish = false

[dependencies]
algonaut_core = "*"
qrcode = "*"
image = { version = "*", default-features = false, features = ["png"] }
