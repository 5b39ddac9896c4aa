[package]
name = "voxi"
version = "0.1.0"
edition = "2021"
publish = false

[dependencies]
regex = "1"
arboard = { version = "3", default-features = false }
windows = { version = "0.58", features = [
    "Win32_Foundation",
    "Win32_Media_Speech",
    "Win32_System_Com",
    "Win32_System_LibraryLoader",
    "Win32_UI_Input_KeyboardAndMouse",
    "Win32_UI_Shell",
    "Win32_UI_WindowsAndMessaging",
] }
