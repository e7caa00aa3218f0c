[package]
name = "miniblog"
version = "0.1.0"
edition = "2021"
publish = false

[dependencies]
axum = { version = "0.7", features = ["multipart"] }
html-escape = "0.2"
reqwest = "0.12"
sqlx = { version = "0.7", features = ["runtime-tokio", "sqlite", "uuid"] }
tokio = { version = "1", features = ["full"] }
uuid = { version = "1", features = ["v7"] }
