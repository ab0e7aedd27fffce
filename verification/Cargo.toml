[package]
name = "hamlibptt"
version = "0.1.0"
edition = "2021"
publish = false

[dependencies]
serde = { version = "1", features = ["derive"] }
toml = "*"
thiserror = "*"
serialport = { version = "*", default-features = false }
spin_sleep = "*"
windows = { version = "*", features = ["Win32_Foundation", "Win32_System_SystemServices", "Win32_UI_WindowsAndMessaging", "Win32_System_LibraryLoader"] }
