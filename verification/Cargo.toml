[package]
name = "voicedown"
version = "0.4.0"
edition = "2021"
publish = false

[dependencies]
crossbeam-channel = "0.5"
reqwest = { version = "0.12", default-features = false, features = ["blocking", "json", "rustls-tls"] }
serde = { version = "1", features = ["derive"] }
serde_json = "1"
wasapi = "0.23"
windows = { version = "0.58", features = ["Win32_Foundation", "Win32_System_ProcessStatus", "Win32_System_Threading", "Win32_UI_WindowsAndMessaging"] }
