[package]
name = "led_control"
version = "0.1.0"
edition = "2021"
publish = false

[dependencies]
mime_guess = "2"
axum = "0.8"
tokio = { version = "1", features = ["full"] }
serde = { version = "1", features = ["derive"] }
serde_json = "1"
reqwest = { version = "0.12", default-features = false, features = ["json", "stream"] }
rppal = "0.22"
rust-embed = "8"
tower-http = { version = "0.6", features = ["cors"] }
