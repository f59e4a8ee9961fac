[package]
name = "ad4min_tray"
version = "0.1.0"
edition = "2021"
publish = false

[dependencies]
log = "=0.4.34"
tauri = { version = "=2.12.5", default-features = false, features = ["tray-icon"] }
