[package]
name = "lorri"
version = "0.1.0"
edition = "2021"
publish = false

[dependencies]
backtrace = "0.3"
crossbeam-channel = "0.5"
futures = "0.3"
human-panic = "1"
log = "0.4"
serde = { version = "1", features = ["derive"] }
serde_json = "1"
slog = "2"
slog-scope = "4"
structopt = "0.3"
tokio = { version = "1", features = ["io-util", "process", "rt", "rt-multi-thread", "sync"] }
uuid = { version = "0.8", features = ["v4"] }
