[package]
name = "oledshift"
version = "0.1.0"
edition = "2021"
publish = false

[dependencies]
rand = "0.8"
serde = { version = "1", features = ["derive"] }
serde_json = "1"
lazy_static = "1"
libloading = "0.8"
winapi = { version = "0.3", features = ["basetsd", "minwindef", "ntdef", "shellapi", "windef", "winerror", "wingdi", "winuser"] }
native-windows-gui = "1"
