[package]
name = "secure_session"
version = "0.1.0"
edition = "2021"
publish = false

[dependencies]
anyhow = "1"
chrono = { version = "0.4", default-features = false, features = ["clock", "std"] }
p256 = { version = "0.13", default-features = false, features = ["ecdh", "std"] }
ring = "0.17"
serde_json = "1"
tokio = { version = "1", default-features = false, features = ["sync"] }
