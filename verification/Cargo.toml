[package]
name = "pori"
version = "0.1.0"
edition = "2021"
publish = false

[dependencies]
serde = { version = "*", features = ["derive"] }
serde_json = "*"
serde_yaml = "*"
toml = "*"
url = "*"
uuid = { version = "*", features = ["v4"] }
anyhow = "*"
clap = { version = "*", features = ["derive", "env"] }
tokio = { version = "*", features = ["rt-multi-thread", "macros", "time", "signal", "sync", "net"] }
tokio-tungstenite = "*"
futures-util = "*"
reqwest = { version = "*", default-features = false }
dirs = "*"
tracing = "*"
tracing-subscriber = { version = "*", features = ["env-filter"] }
