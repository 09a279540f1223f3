[package]
name = "presence-for-plex"
version = "0.1.0"
edition = "2021"
publish = false

[dependencies]
dirs = "*"
discord-rich-presence = "*"
log = "*"
objc2-core-foundation = "*"
open = "*"
percent-encoding = "2"
serde = { version = "1", features = ["derive"] }
serde_json = "1"
serde_yml = "*"
simplelog = "*"
tokio = { version = "1", features = ["macros", "rt-multi-thread", "signal", "sync", "time"] }
tokio-util = "0.7"
uuid = { version = "1", features = ["v4"] }
windows-sys = { version = "*", features = ["Win32_Foundation", "Win32_UI_WindowsAndMessaging"] }
