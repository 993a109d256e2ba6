[package]
name = "aplicacao_rust"
version = "0.1.0"
edition = "2021"
publish = false

[dependencies]
axum = "*"
serde_json = "*"
tokio = { version = "*", features = ["rt-multi-thread", "net", "macros"] }
