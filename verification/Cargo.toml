[package]
name = "chamber_agent"
version = "0.1.0"
edition = "2021"
publish = false

[dependencies]
subtle = "=2.6.1"
serde = { version = "=1.0.229", features = ["derive"] }
serde_json = "=1.0.154"
tokio = { version = "=1.54.1", features = ["full"] }
tokio-stream = { version = "=0.1.19", features = ["net"] }
tonic = "=0.14.9"
futures = "=0.3.34"
