[package]
name = "teepod"
version = "0.1.0"
edition = "2021"
publish = false

[dependencies]
serde = { version = "*", features = ["derive"] }
serde_json = "*"
sha2 = "*"
hex = "*"
uuid = { version = "*", features = ["v4"] }
