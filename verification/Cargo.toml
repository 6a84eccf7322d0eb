[package]
name = "continuebee"
version = "0.1.0"
edition = "2021"
publish = false

[dependencies]
sessionless = { version = "=0.1.1", features = ["uuid"] }
serde = { version = "*", features = ["derive"] }
serde_json = "*"
axum = "*"
tokio = { version = "*", features = ["full"] }
anyhow = "*"
dotenv = "*"
