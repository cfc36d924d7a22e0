[package]
name = "static_web_server"
version = "0.1.0"
edition = "2021"
publish = false

[dependencies]
anyhow = "*"
askama = "*"
axum = "*"
dotenv = "*"
tokio = { version = "*", features = ["full"] }
tower-http = { version = "*", features = ["fs"] }
tracing = "*"
tracing-subscriber = { version = "*", features = ["env-filter"] }
