[package]
name = "pomodoro"
version = "0.1.0"
edition = "2021"
publish = false

[dependencies]
clap = { version = "4", features = ["derive"] }
crossterm = "0.28"
ratatui = "0.29"
rodio = { version = "0.20", default-features = false }
tokio = { version = "1", features = ["rt-multi-thread", "macros"] }
