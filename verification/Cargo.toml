[package]
name = "roomcast"
version = "0.1.0"
edition = "2021"
publish = false

[dependencies]
tokio = { version = "1", features = ["sync", "rt-multi-thread", "macros", "net"] }
axum = { version = "0.7", features = ["ws"] }
futures-util = "0.3"
tokio-stream = { version = "0.1", features = ["sync"] }
serde = { version = "1", features = ["derive"] }
serde_json = "1"
