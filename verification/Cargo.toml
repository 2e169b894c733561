[package]
name = "auth-service"
version = "0.1.0"
edition = "2021"
publish = false

[dependencies]
validator = "=0.18.1"
uuid = { version = "=1.29.0", features = ["v4"] }
rand = "=0.8.8"
secrecy = { version = "=0.8.0", features = ["serde"] }
serde = { version = "=1.0.229", features = ["derive"] }
axum = "=0.7.9"
axum-extra = { version = "=0.9.6", features = ["cookie"] }
tokio = { version = "=1.54.1", features = ["full"] }
async-trait = "=0.1.92"
color-eyre = "=0.6.5"
thiserror = "=1.0.69"
tracing = "=0.1.44"
jsonwebtoken = "9"
