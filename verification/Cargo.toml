[package]
name = "dxl"
version = "0.1.0"
edition = "2021"
publish = false

[dependencies]
embassy-futures = "*"
embassy-rp = { version = "*", features = ["rp2040"] }
embassy-sync = "*"
embassy-time = "*"
