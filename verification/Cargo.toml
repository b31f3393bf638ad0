[package]
name = "scene_bridge"
version = "0.1.0"
edition = "2021"
publish = false

[dependencies]
sanitize-filename = "*"
serde = { version = "1", features = ["derive"] }
serde_json = "1"
tokio = { version = "1", features = ["rt-multi-thread", "net", "sync", "time", "io-util", "macros"] }
tokio-tungstenite = "*"
futures-util = "0.3"
parking_lot = "*"
