[package]
name = "fake_luxury_api"
version = "0.1.0"
edition = "2021"
publish = false

[dependencies]
axum = { version = "0.6", features = ["ws", "headers"] }
axum-auth = "0.4"
chrono = "0.4"
clap = { version = "4", features = ["derive"] }
envconfig = "0.10"
flat_projection = "0.4"
futures = "0.3"
futures-util = "0.3"
http = "0.2"
jsonwebtoken = "9"
reqwest = { version = "0.11", default-features = false, features = ["json"] }
serde = { version = "1", features = ["derive"] }
serde-enum-str = "0.4"
serde_json = "1"
serde_path_to_error = "0.1"
tap = "1"
thiserror = "1"
tokio = { version = "1", features = ["full"] }
tokio-tungstenite = "0.20"
tower-http = { version = "0.4", features = ["trace"] }
tracing = "0.1"
tracing-subscriber = "0.3"
url = "2"
