[package]
name = "rustpress-auth"
version = "0.1.0"
edition = "2021"
publish = false

[dependencies]
argon2 = "0.5"
hex = "0.4"
jsonwebtoken = "9"
rand = "0.8"
serde_json = "1"
sha2 = "0.10"
uuid = { version = "1", features = ["v4"] }
validator = "0.18"
axum = "0.7"
chrono = "0.4"
serde = { version = "1", features = ["derive"] }
sqlx = { version = "0.7", default-features = false, features = ["runtime-tokio", "postgres", "uuid", "chrono"] }
tokio = { version = "1", features = ["sync", "rt"] }
