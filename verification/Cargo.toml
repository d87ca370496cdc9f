[package]
name = "overlay_window"
version = "0.1.0"
edition = "2021"
publish = false

[dependencies]
rdev = { version = "=0.5.3", features = ["unstable_grab"] }
serde = { version = "=1.0.229", features = ["derive"] }
windows = { version = "=0.62.2", features = ["Win32_Foundation", "Win32_UI_WindowsAndMessaging"] }
