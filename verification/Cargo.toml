[package]
name = "frostpaw_auth"
version = "0.1.0"
edition = "2021"
publish = false

[dependencies]
base64 = "*"
hex = "*"
hmac = "*"
serde = { version = "*", features = ["derive"] }
serde_json = "*"
sha2 = "*"
uuid = { version = "*", features = ["v4"] }
