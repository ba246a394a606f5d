[package]
name = "minilearn"
version = "0.1.0"
edition = "2021"
publish = false

[dependencies]
csv = "1"
ndarray = "0.15"
rand = "0.8"
serde = { version = "1", features = ["derive"] }
