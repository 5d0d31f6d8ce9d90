[package]
name = "codex-usage-tray"
version = "0.1.0"
edition = "2021"
publish = false

[dependencies]
chrono = "0.4"
dirs = "*"
serde = { version = "1", features = ["derive"] }
serde_json = "1"
open = "*"
tao = "*"
tray-icon = "*"
tauri-winrt-notification = "*"
