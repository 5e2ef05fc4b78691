[package]
name = "jj-watch"
version = "0.1.0"
edition = "2021"
publish = false

[dependencies]
ansi-to-tui = "*"
clap = { version = "*", features = ["derive"] }
crossterm = { version = "*", features = ["event-stream"] }
miette = { version = "*", features = ["fancy"] }
ratatui = "*"
tokio = { version = "*", features = ["macros", "process", "rt-multi-thread", "time"] }
tokio-stream = "*"
