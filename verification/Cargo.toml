[package]
name = "tui"
version = "0.1.0"
edition = "2021"
publish = false

[dependencies]
base64 = "=0.23.1"
uuid = { version = "=1.29.0", features = ["v4"] }
ratatui = "=0.30.2"
crossterm = "=0.29.0"
serde_json = "1"
