[package]
name = "pot"
version = "0.1.0"
edition = "2021"
publish = false

[dependencies]
tauri = { version = "=2.12.5", default-features = false, features = ["tray-icon"] }
tauri-plugin-global-shortcut = "=2.4.1"
global-hotkey = "=0.8.0"
log = "=0.4.35"
