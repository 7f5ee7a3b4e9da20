[package]
name = "openagent"
version = "0.1.0"
edition = "2021"
publish = false

[dependencies]
futures = "=0.3.34"
pin-project = "=1.1.13"
regex = "=1.13.1"
reqwew = { version = "=0.7.1", features = ["json", "multipart", "stream"] }
serde = { version = "=1.0.229", features = ["derive"] }
serde_json = "=1.0.154"
thiserror = "=2.0.21"
tokio = { version = "=1.54.1", features = ["macros", "rt-multi-thread", "sync", "time"] }
tokio-stream = "=0.1.19"
tokio-util = { version = "=0.7.20", features = ["codec", "io"] }
tracing = "=0.1.44"
