[package]
name = "ord_send"
version = "0.1.0"
edition = "2021"
publish = false

[dependencies]
bitcoin = "*"
serde = { version = "*", features = ["derive"] }
serde_json = "*"
