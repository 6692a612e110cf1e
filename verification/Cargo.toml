[package]
name = "consent_window"
version = "0.1.0"
edition = "2021"
publish = false

[dependencies]
anyhow = "=1.0.104"
windows = { version = "0.62", features = ["Security_Credentials_UI", "Win32_Foundation", "Win32_Graphics_Gdi", "Win32_System_WinRT", "Win32_UI_WindowsAndMessaging"] }
windows-future = "0.3"
