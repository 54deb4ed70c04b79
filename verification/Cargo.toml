[package]
name = "translator_backend"
version = "0.1.0"
edition = "2021"
publish = false

[dependencies]
chrono = "=0.4.45"
scrypt = "=0.2.0"
jwt = "=0.16.0"
hmac = "=0.12.1"
sha2 = "=0.10.9"
serde = { version = "=1.0.229", features = ["derive"] }
serde_json = "=1.0.154"
rocket = { version = "=0.5.2", features = ["json"] }
juniper = { version = "=0.17.1", features = ["uuid"] }
uuid = "=1.29.0"
