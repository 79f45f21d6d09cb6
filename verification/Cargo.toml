[package]
name = "pod_usage_analyzer"
version = "0.1.0"
edition = "2021"
publish = false

[dependencies]
chrono = "*"
clap = { version = "*", features = ["derive"] }
colored = "*"
crossterm = "*"
prometheus-http-query = "*"
ratatui = "*"
tokio = { version = "*", features = ["macros", "rt-multi-thread"] }
