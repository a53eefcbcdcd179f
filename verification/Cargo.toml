[package]
name = "kv_gateway"
version = "0.1.0"
edition = "2021"
publish = false

[dependencies]
axum = "*"
axum-macros = "*"
serde = { version = "*", features = ["derive"] }
tokio = { version = "*", features = ["rt-multi-thread", "net", "macros"] }
opentelemetry = "*"
opentelemetry_sdk = "*"
opentelemetry-otlp = { version = "*", default-features = false, features = ["trace", "http-proto"] }
opentelemetry-http = "*"
