[package]
name = "session_driver"
version = "0.1.0"
edition = "2021"
publish = false

[dependencies]
anyhow = "*"
crossterm = { version = "*", features = ["event-stream"] }
env_logger = "*"
log = "*"
signal-hook = "*"
smol = "*"
