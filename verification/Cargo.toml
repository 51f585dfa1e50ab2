[package]
name = "pingstats"
version = "0.1.0"
edition = "2021"
publish = false

[dependencies]
pnet = "*"
rand = "0.8"
chrono = "0.4"
tokio = { version = "1", features = ["macros", "rt-multi-thread", "time"] }
crossterm = "0.27"
ratatui = "0.26"
clap = { version = "4", features = ["derive"] }
