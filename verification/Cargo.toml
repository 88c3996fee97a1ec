[package]
name = "blog_rs"
version = "0.1.0"
edition = "2021"
publish = false

[dependencies]
argon2 = "0.5"
rand = "0.8"
jsonwebtoken = "9"
regex = "1"
validator = "0.18"
serde = { version = "1", features = ["derive"] }
serde_json = "1"
uuid = { version = "1", features = ["v4"] }
axum = "0.7"
tokio = { version = "1", features = ["macros", "rt-multi-thread", "net", "sync"] }
