[package]
name = "websocket_rust"
version = "0.1.0"
edition = "2021"
publish = false

[dependencies]
redis = { version = "0.25", features = ["tokio-comp"] }
uuid = { version = "1", features = ["v4"] }
axum = { version = "0.7", features = ["ws"] }
tokio = { version = "1", features = ["full"] }
serde = { version = "1", features = ["derive"] }
serde_json = "1"
bb8 = "0.8"
bb8-redis = "0.15"
futures = "0.3"
once_cell = "1"
dotenv = "0.15"
tower-http = { version = "0.5", features = ["fs"] }
askama = "0.12"
