[package]
name = "captioner"
version = "0.1.0"
edition = "2021"
publish = false

[dependencies]
axum = { version = "=0.7.9", features = ["multipart"] }
base64 = "=0.22.1"
dotenvy = "=0.15.7"
image = "=0.24.9"
reqwest = { version = "=0.11.27", default-features = false, features = ["rustls-tls"] }
serde = { version = "=1.0.229", features = ["derive"] }
serde_json = "=1.0.151"
tokio = { version = "=1.53.2", features = ["macros", "net", "rt-multi-thread"] }
tower-http = { version = "=0.5.2", features = ["cors"] }
