[package]
name = "kwick"
version = "0.1.0"
edition = "2021"
publish = false

[dependencies]
nucleo-matcher = "=0.3.1"
toml_edit = "=0.25.17"
toml = "=1.1.8"
serde = { version = "=1.0.229", features = ["derive"] }
urlencoding = "=2.1.3"
global-hotkey = "=0.9.0"
dirs = "=7.0.0"
walkdir = "=2.5.0"
eframe = { version = "=0.31.1", default-features = false, features = ["default_fonts", "glow", "x11"] }
raw-window-handle = "=0.6.2"
tray-icon = "=0.20.1"
mlua = { version = "=0.10.5", features = ["lua54", "vendored"] }
windows = { version = "=0.58.0", features = ["Win32_Foundation", "Win32_System_Com", "Win32_System_Threading", "Win32_UI_WindowsAndMessaging", "Win32_Graphics_Gdi", "Win32_Storage_FileSystem", "Win32_UI_Shell", "Win32_System_Registry", "Win32_System_LibraryLoader", "Win32_UI_Input_KeyboardAndMouse"] }
