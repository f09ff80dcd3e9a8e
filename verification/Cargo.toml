[package]
name = "spltui"
version = "0.1.0"
edition = "2021"
publish = false

[dependencies]
matematika-rs = "*"
crossterm = "*"
ratatui = "*"
clap = { version = "4", features = ["derive"] }
env_logger = "*"
log = "*"
