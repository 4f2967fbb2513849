[package]
name = "monitor_manager"
version = "0.2.0"
edition = "2021"
publish = false

[dependencies]
chrono = "=0.4.45"
mime_guess = "=2.0.5"
anyhow = "=1.0.104"
axum = "=0.7.9"
clap = { version = "=4.6.7", features = ["derive"] }
once_cell = "=1.21.4"
rust-embed = { version = "=8.13.0", features = ["interpolate-folder-path"] }
serde = { version = "=1.0.229", features = ["derive"] }
serde_json = "=1.0.154"
tokio = { version = "=1.54.1", features = ["full"] }
tower-http = { version = "=0.5.2", features = ["trace"] }
windows = { version = "=0.52.0", features = ["Win32_Foundation", "Win32_Devices_Display", "Win32_Security", "Win32_Storage_FileSystem", "Win32_System_Diagnostics_ToolHelp", "Win32_System_Pipes", "Win32_System_RemoteDesktop", "Win32_System_Threading", "Win32_System_StationsAndDesktops", "Win32_System_Shutdown", "Win32_System_LibraryLoader", "Win32_UI_WindowsAndMessaging"] }
windows-service = "=0.7.0"
native-windows-gui = "=1.0.13"
