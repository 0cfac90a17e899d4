[package]
name = "mxu_core"
version = "0.1.0"
edition = "2021"
publish = false

[dependencies]
serde_json = "=1.0.154"
serde = { version = "=1.0.229", features = ["derive"] }
log = "=0.4.34"
libc = "=0.2.191"
os_info = "=3.15.0"
reqwest = { version = "=0.12.28", default-features = false, features = ["blocking", "rustls-tls"] }
clipboard-win = "=5.4.3"
windows = { version = "=0.58.0", features = ["Win32_Foundation", "Win32_Security", "Win32_System_Threading", "Win32_System_Registry", "Win32_System_SystemInformation", "Win32_System_LibraryLoader", "Win32_UI_Shell", "Win32_UI_WindowsAndMessaging", "Win32_UI_HiDpi", "Win32_Graphics_Dwm"] }
