[package]
name = "scripts_runner"
version = "0.1.0"
edition = "2021"
publish = false

[dependencies]
dirs = "6"
tauri = { version = "2", default-features = false, features = ["tray-icon"] }
