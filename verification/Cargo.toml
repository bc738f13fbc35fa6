[package]
name = "hold_session"
version = "0.1.0"
edition = "2021"
publish = false

[dependencies]
tauri = { version = "2", default-features = false }
once_cell = "1"
cocoa = "*"
objc = "0.2"
