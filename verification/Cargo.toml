[package]
name = "gamepad_sync"
version = "0.1.0"
edition = "2021"
publish = false

[dependencies]
evdev = "0.12"
gilrs = "0.11"
serde = { version = "1", features = ["derive"] }
serde_json = "1"
tauri = { version = "2", default-features = false }
