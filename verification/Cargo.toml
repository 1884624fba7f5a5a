[package]
name = "dex_client"
version = "0.1.0"
edition = "2021"
publish = false

[dependencies]
keyring = { version = "=3.6.3", features = ["apple-native", "windows-native", "linux-native"] }
tauri = { version = "2", default-features = false, features = ["tray-icon"] }
