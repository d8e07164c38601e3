[package]
name = "mtp_tui"
version = "0.1.0"
edition = "2021"
publish = false

[dependencies]
mtp-rs = "0.4"
nusb = "0.2"
anyhow = "1"
bytes = "1"
futures = "0.3"
futures-timer = "3"
async-trait = "0.1"
tokio = { version = "1", features = ["rt-multi-thread"] }
crossterm = "0.28"
ratatui = "0.29"
serde = { version = "1", features = ["derive"] }
toml = "0.8"
