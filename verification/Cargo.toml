[package]
name = "youtui"
version = "0.1.0"
edition = "2021"
publish = false

[dependencies]
anyhow = "=1.0.104"
async-callback-manager = "=0.0.11"
crossterm = "=0.29.0"
futures = "=0.3.34"
ratatui = "=0.30.2"
serde = { version = "=1.0.229", features = ["derive"] }
serde_json = "=1.0.154"
tui-logger = "=0.18.3"
