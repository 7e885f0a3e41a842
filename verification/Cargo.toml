[package]
name = "tmp_companion"
version = "0.1.0"
edition = "2021"
publish = false

[dependencies]
tauri = { version = "2", default-features = false, features = ["wry"] }
log = "0.4"
tauri-plugin-log = { version = "2", default-features = false }
tauri-plugin-process = "2"
