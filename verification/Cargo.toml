[package]
name = "rsvici"
version = "0.1.0"
edition = "2021"
publish = false

[dependencies]
tokio = { version = "=1.53.2", features = ["net", "sync", "rt", "io-util", "macros"] }
serde = { version = "=1.0.229", features = ["derive"] }
serde_vici = "=0.1.5"
futures-util = "=0.3.34"
async-stream = "=0.3.6"
tokio-stream = "=0.1.19"
