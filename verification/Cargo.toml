[package]
name = "auth_core"
version = "0.1.0"
edition = "2021"
publish = false

[dependencies]
argon2 = "=0.6.0"
jsonwebtoken = { version = "=11.1.0", features = ["rust_crypto"] }
serde_json = "=1.0.151"
chrono = { version = "=0.4.45", features = ["serde"] }
serde = { version = "=1.0.229", features = ["derive"] }
axum = "=0.8.9"
axum-extra = { version = "=0.12.6", features = ["cookie"] }
http = "=1.5.0"
tokio = { version = "=1.53.2", features = ["macros", "rt-multi-thread", "net"] }
sqlx = { version = "=0.9.0", features = ["mysql", "runtime-tokio", "chrono"] }
config = "=0.15.27"
