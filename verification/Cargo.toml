[package]
name = "framelet"
version = "0.1.0"
edition = "2021"
publish = false

[dependencies]
windows-capture = "=1.5.0"
windows = { version = "0.61", features = ["Win32_Foundation", "Win32_Graphics_Gdi", "Win32_UI_WindowsAndMessaging", "Devices_Enumeration", "Media_Capture", "Graphics_Capture"] }
serde = { version = "=1.0.229", features = ["derive"] }
thiserror = "=2.0.21"
ctrlc = "=3.5.2"
inquire = "=0.9.4"
