[package]
name = "translate_dock"
version = "0.1.0"
edition = "2021"
publish = false

[dependencies]
base64 = "=0.22.1"
serde = { version = "=1.0.229", features = ["derive"] }
serde_json = "=1.0.154"
reqwest = { version = "=0.12.28", default-features = false, features = ["json", "default-tls"] }
tokio = { version = "=1.54.1", features = ["rt-multi-thread", "macros", "time"] }
eframe = { version = "=0.33.3", default-features = false, features = ["glow", "x11", "default_fonts"] }
tray-icon = "=0.26.1"
image = { version = "=0.25.10", default-features = false, features = ["ico", "png"] }
env_logger = { version = "=0.11.11", default-features = false }
windows-sys = { version = "=0.59.0", features = ["Win32_Foundation", "Win32_Security_Cryptography", "Win32_UI_WindowsAndMessaging"] }
