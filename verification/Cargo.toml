[package]
name = "united_cinemas"
version = "0.1.0"
edition = "2021"
publish = false

[dependencies]
actix-web = "4"
actix-ws = "0.3"
anyhow = "1"
base64 = "0.22"
clap = { version = "4", features = ["derive"] }
futures-util = "0.3"
serde = { version = "1", features = ["derive"] }
serde_json = "1"
tokio = { version = "1", features = ["full"] }
tracing = "0.1"
webrtc = "0.11"
