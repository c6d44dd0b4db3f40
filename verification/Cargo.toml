[package]
name = "padloc_menu"
version = "0.1.0"
edition = "2021"
publish = false

[dependencies]
tauri = { version = "=1.0.0-beta.8", default-features = false, features = ["shell-open"] }
