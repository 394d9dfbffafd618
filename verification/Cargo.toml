[package]
name = "lambda_api"
version = "0.1.0"
edition = "2021"
publish = false

[dependencies]
aide = { version = "=0.15.1", features = ["axum", "axum-json", "axum-query", "axum-extra"] }
axum = "=0.8.9"
axum-extra = "=0.10.3"
chrono = "=0.4.45"
lambda_http = "=1.3.2"
schemars = "=0.9.0"
serde = { version = "=1.0.229", features = ["derive"] }
serde_json = "=1.0.154"
thiserror = "=2.0.21"
tokio = { version = "=1.54.1", features = ["macros", "rt-multi-thread"] }
