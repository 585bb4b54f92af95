[package]
name = "rs_class"
version = "0.1.0"
edition = "2021"
publish = false

[dependencies]
byteorder = "=1.5.0"
dirs = "=7.0.0"
eframe = { version = "=0.36.2", default-features = false, features = ["default_fonts", "glow", "x11"] }
egui = { version = "=0.36.2", default-features = false }
egui-file-dialog = { version = "=0.15.0", default-features = false }
lazy_static = "=1.5.1"
ron = "=0.12.2"
serde = { version = "=1.0.229", features = ["derive"] }
sysinfo = { version = "=0.39.6", default-features = false, features = ["system"] }
windows-sys = { version = "=0.61.2", features = ["Win32_Foundation", "Win32_System_Diagnostics_Debug", "Win32_System_Threading"] }
