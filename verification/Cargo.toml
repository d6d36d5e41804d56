[package]
name = "pola"
version = "0.1.0"
edition = "2021"
publish = false

[dependencies]
jiff = { version = "=0.2.39", features = ["serde"] }
global-hotkey = "=0.9.0"
serde = { version = "=1.0.229", features = ["derive"] }
serde_json = "=1.0.154"
toml = "=1.1.8"
tempfile = "=3.27.0"
interprocess = "=2.4.7"
objc2 = "0.6"
objc2-app-kit = "0.3"
objc2-foundation = "0.3"
dispatch2 = "0.3"
windows-registry = "*"
windows-window = "*"
windows = { version = "*", features = ["Win32_Foundation", "Win32_System_Com", "Win32_UI_WindowsAndMessaging", "Win32_UI_Shell", "Win32_Globalization", "Win32_System_Console"] }
