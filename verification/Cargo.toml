[package]
name = "citadel_workspace_service"
version = "0.1.0"
edition = "2021"
publish = false

[dependencies]
bincode2 = "=2.0.1"
bytes = { version = "=1.12.1", features = ["serde"] }
futures = "=0.3.34"
serde = { version = "=1.0.229", features = ["derive"] }
tokio = { version = "=1.54.1", features = ["net", "rt-multi-thread", "sync", "macros", "io-util", "time"] }
tokio-util = { version = "=0.7.20", features = ["codec"] }
uuid = { version = "=1.29.0", features = ["v4", "serde"] }
