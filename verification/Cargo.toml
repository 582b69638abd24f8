[package]
name = "director-narrative-core"
version = "0.1.1"
edition = "2021"
publish = false

[dependencies]
serde = { version = "1", features = ["derive"] }
serde_json = "1"
serde_yaml = "0.9"
toml = "0.8"
uuid = { version = "1", features = ["v4"] }
ureq = { version = "2", features = ["json"] }
ctrlc = "3"
eframe = { version = "0.31", default-features = false, features = ["glow", "default_fonts"] }
windows-sys = { version = "0.52", features = ["Win32_Foundation", "Win32_Security", "Win32_System_Memory", "Win32_System_Threading"] }
