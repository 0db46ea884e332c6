[package]
name = "winio_ui"
version = "0.1.0"
edition = "2021"
publish = false

[dependencies]
slab = "0.4"
time = "0.3"
cookie = "0.18"
widestring = "1"
windows-sys = { version = "*", features = ["Win32_Foundation", "Win32_UI_WindowsAndMessaging", "Win32_UI_Controls", "Win32_Graphics_Gdi"] }
