[package]
name = "ipc"
version = "0.1.0"
edition = "2021"
publish = false

[dependencies]
bytes = "1"
serde = { version = "1", features = ["derive"] }
serde_json = "1"
serde_variant = "*"
tokio = { version = "1", features = ["net", "time", "sync", "io-util", "rt", "macros"] }
tokio-util = { version = "0.7", features = ["codec"] }
tokio-stream = "0.1"
futures = "0.3"
log = "0.4"
thiserror = "*"
dirs = "*"
