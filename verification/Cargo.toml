[package]
name = "torrent_state"
version = "0.1.0"
edition = "2021"
publish = false

[dependencies]
parking_lot = "0.12"
anyhow = "1"
tokio = { version = "1", features = ["rt", "sync", "time"] }
tokio-stream = "0.1"
tokio-util = "0.7"
tracing = "0.1"
url = "2"
uuid = "1"
rand = { version = "0.8", features = ["small_rng"] }
gethostname = "0.5"
axum = "0.7"
