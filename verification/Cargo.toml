[package]
name = "idle_terminal"
version = "0.1.0"
edition = "2021"
publish = false

[dependencies]
chrono = { version = "0.4", features = ["serde"] }
color-eyre = "0.6"
crossterm = { version = "0.28", features = ["event-stream"] }
dirs = "5"
futures = "0.3"
hostname = "0.4"
rand = "0.8"
ratatui = "0.29"
serde = { version = "1", features = ["derive"] }
serde_json = "1"
tokio = { version = "1", features = ["full"] }
tracing = "0.1"
tracing-subscriber = { version = "0.3", features = ["env-filter"] }
