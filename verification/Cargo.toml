[package]
name = "x402"
version = "0.1.0"
edition = "2021"
publish = false

[dependencies]
base64ct = { version = "1", features = ["alloc"] }
jzon = "*"
serde = { version = "1", features = ["derive"] }
serde_json = "1"
thiserror = "*"
