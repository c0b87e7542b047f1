[package]
name = "memory_overlay"
version = "0.1.0"
edition = "2021"
publish = false

[dependencies]
native-windows-gui = "*"
winapi = { version = "0.3", features = ["winuser", "sysinfoapi", "windef"] }
