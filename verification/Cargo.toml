[package]
name = "codex_agents"
version = "0.1.0"
edition = "2021"
publish = false

[dependencies]
chrono = "0.4"
unicode-width = "0.2"
uuid = { version = "1", features = ["v4", "v7"] }
ratatui = "0.29"
crossterm = { version = "0.28", features = ["event-stream"] }
tokio = { version = "1", features = ["sync", "time", "macros", "rt"] }
tokio-stream = "0.1"
tracing = "0.1"
color-eyre = "0.6"
anyhow = "1"
