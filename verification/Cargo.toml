[package]
name = "gdata_explorer"
version = "0.1.0"
edition = "2021"
publish = false

[dependencies]
anyhow = "1"
clap = { version = "4", features = ["derive", "env"] }
crossterm = { version = "0.27", features = ["event-stream"] }
futures = "0.3"
once_cell = "1"
ratatui = "0.26"
tokio = { version = "1", features = ["rt-multi-thread", "macros"] }
