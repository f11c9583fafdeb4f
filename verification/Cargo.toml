[package]
name = "tauri-plugin-oauth"
version = "0.1.0"
edition = "2021"
publish = false

[dependencies]
httparse = "1"
log = "0.4"
tauri = { version = "2", default-features = false }
