[package]
name = "rstop"
version = "0.1.0"
edition = "2021"
publish = false

[dependencies]
winapi = { version = "0.3", features = ["winuser", "wincon", "windef", "minwindef", "winnt", "winreg"] }
winreg = "0.10"
lazy_static = "1"
dialoguer = { version = "0.11", default-features = false }
sysinfo = { version = "0.29", default-features = false }
trayicon = "0.1"
winit = "0.26"
windows-error = "1"
