[package]
name = "esp_csi_tui_rs"
version = "0.1.0"
edition = "2021"
publish = false

[dependencies]
heapless = "0.8"
serialport = { version = "4", default-features = false }
anyhow = "1"
chrono = "0.4"
dirs = "*"
serde = { version = "1", features = ["derive"] }
serde_json = "1"
toml = "*"
rand = "0.8"
