[package]
name = "maze_service"
version = "0.1.0"
edition = "2021"
publish = false

[dependencies]
serde_json = "=1.0.151"
lambda_http = "=1.3.1"
lambda_runtime = "=1.4.0"
tokio = { version = "=1.53.2", features = ["rt"] }
