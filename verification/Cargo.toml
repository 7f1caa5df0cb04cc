[package]
name = "wordsmith_auth"
version = "0.1.0"
edition = "2021"
publish = false

[dependencies]
argon2 = "*"
uuid = { version = "*", features = ["v4"] }
validator = "*"
serde = { version = "*", features = ["derive"] }
serde_json = "*"
thiserror = "*"
sqlx = { version = "*", default-features = false, features = ["postgres", "runtime-tokio", "uuid"] }
tokio = { version = "*", features = ["rt", "macros"] }
