[package]
name = "runtara_tui"
version = "0.1.0"
edition = "2021"
publish = false

[dependencies]
anyhow = "1"
chrono = "0.4"
clap = { version = "4", features = ["derive", "env"] }
crossterm = "0.28"
ratatui = "0.29"
runtara-management-sdk = "*"
serde_json = "1"
tokio = { version = "1", features = ["rt-multi-thread", "macros"] }
