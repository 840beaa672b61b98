[package]
name = "mcp_server_microsoft_paint"
version = "0.1.0"
edition = "2021"
publish = false

[dependencies]
async-trait = "0.1"
base64 = "0.22"
futures = "0.3"
image = "0.24"
log = "0.4"
mcp_rust_sdk = "*"
serde = { version = "1", features = ["derive"] }
serde_json = "1"
simplelog = "0.12"
thiserror = "1"
tokio = { version = "1", features = ["rt-multi-thread", "macros", "time"] }
uiautomation = "*"
windows-sys = { version = "0.52", features = ["Win32_Foundation", "Win32_Graphics_Gdi", "Win32_Security", "Win32_System_Threading", "Win32_UI_Input_KeyboardAndMouse", "Win32_UI_Shell", "Win32_UI_WindowsAndMessaging"] }
