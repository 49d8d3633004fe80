[package]
name = "ele_bot"
version = "0.1.0"
edition = "2021"
publish = false

[dependencies]
anyhow = "1"
chrono = "0.4"
cpal = "0.17"
crossterm = "0.28"
image = { version = "0.25", default-features = false, features = ["bmp", "jpeg", "png"] }
log = "0.4"
rand = "0.9"
ratatui = "0.29"
rusb = "0.9"
serde = { version = "1", features = ["derive"] }
serialport = "4"
simplelog = "0.12"
toml = "0.8"
vosk = "0.3"
