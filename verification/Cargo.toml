[package]
name = "signaling_hub"
version = "0.1.0"
edition = "2021"
publish = false

[dependencies]
axum = { version = "*", features = ["ws"] }
futures-util = "*"
mongodb = "*"
serde = { version = "*", features = ["derive"] }
serde_json = "*"
tokio = { version = "*", features = ["sync", "rt"] }
uuid = { version = "*", features = ["v4"] }
