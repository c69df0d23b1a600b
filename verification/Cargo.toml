[package]
name = "system_monitor"
version = "0.2.0"
edition = "2021"
publish = false

[dependencies]
chrono = "*"
clap = { version = "*", features = ["derive"] }
colored = "*"
crossterm = "*"
env_logger = "*"
log = "*"
serde = { version = "*", features = ["derive"] }
sysinfo = "*"
toml = "*"
