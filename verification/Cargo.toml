[package]
name = "keyaura"
version = "0.1.0"
edition = "2021"
publish = false

[dependencies]
serde = { version = "=1.0.229", features = ["derive"] }
serde_json = "=1.0.154"
tokio = { version = "=1.54.1", features = ["rt", "time"] }
tauri = { version = "=2.12.5", default-features = false }
tauri-plugin-dialog = { version = "=2.8.4", default-features = false }
windows-sys = { version = "=0.61.2", features = ["Win32_UI_Input_KeyboardAndMouse"] }
