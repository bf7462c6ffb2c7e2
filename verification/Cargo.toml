[package]
name = "light-factory-tui"
version = "0.1.0"
edition = "2021"
publish = false

[dependencies]
anyhow = "=1.0.104"
clap = { version = "=4.6.7", features = ["derive", "env"] }
crossterm = { version = "=0.28.1", features = ["event-stream"] }
futures-util = "=0.3.34"
keyring = { version = "=3.6.3", default-features = false, features = ["apple-native", "windows-native", "linux-native"] }
ratatui = { version = "=0.29.0", features = ["unstable-rendered-line-info"] }
reqwest = { version = "=0.12.28", default-features = false, features = ["json"] }
serde = { version = "=1.0.229", features = ["derive"] }
serde_json = "=1.0.154"
tokio = { version = "=1.54.1", features = ["full"] }
tokio-tungstenite = "=0.24.0"
