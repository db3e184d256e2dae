[package]
name = "device_query"
version = "0.1.0"
edition = "2021"
publish = false

[dependencies]
x11 = { version = "=2.21.0", features = ["xlib"] }
windows = { version = "=0.58.0", features = ["Win32_Foundation", "Win32_UI_Input_KeyboardAndMouse", "Win32_UI_WindowsAndMessaging"] }
keyboard-types = { version = "=0.8.3", default-features = false }
readkey = "=0.2.2"
readmouse = "=0.2.1"
macos-accessibility-client = "=0.0.2"
