[package]
name = "rust_for_web"
version = "0.1.0"
edition = "2021"
publish = false

[dependencies]
ammonia = "=4.2.4"
argon2 = { version = "=0.5.3", features = ["std"] }
jsonwebtoken = "=9.3.1"
serde = { version = "=1.0.229", features = ["derive"] }
serde_json = "=1.0.154"
axum = "=0.7.9"
axum-extra = { version = "0.9", features = ["cookie"] }
tokio = { version = "=1.54.1", features = ["full"] }
redis = "=0.25.5"
reqwest = { version = "=0.12.28", default-features = false }
tower = "=0.4.13"
tower-http = { version = "=0.5.2", features = ["cors", "trace", "timeout"] }
sqlx = { version = "=0.7.4", default-features = false, features = ["runtime-tokio", "postgres"] }
tracing-subscriber = "=0.3.23"
