[package]
name = "spatial"
version = "0.1.0"
edition = "2021"
publish = false

[dev-dependencies]
num = { version = "0.4", default-features = false }
