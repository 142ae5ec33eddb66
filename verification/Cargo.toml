[package]
name = "pota_api"
version = "0.1.0"
edition = "2021"
publish = false

[dependencies]
chrono = "0.4"
axum = { version = "0.7", features = ["multipart"] }
tokio = { version = "1", features = ["full"] }
anyhow = "1"
tracing = "0.1"
shaku = "0.6"
shaku_axum = "*"
async-trait = "0.1"
