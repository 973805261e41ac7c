[package]
name = "typebridge"
version = "2.2.0"
edition = "2021"
publish = false

[dependencies]
serde = { version = "=1.0.229", features = ["derive"] }
confy = "=0.6.1"
ureq = { version = "=2.12.1", features = ["json"] }
arboard = "=3.7.0"
enigo = "=0.6.1"
eframe = { version = "=0.37.0", default-features = false, features = ["default_fonts", "glow", "x11"] }
ashpd = { version = "=0.13.13", default-features = false, features = ["async-io", "remote_desktop", "screencast"] }
futures = "=0.3.34"
reis = "=0.7.1"
xkbcommon = "=0.9.0"
wayland-client = "=0.31.15"
wayland-protocols-misc = { version = "=0.3.12", features = ["client"] }
libc = "=0.2.191"
x11rb = "=0.13.2"
windows-sys = { version = "=0.59.0", features = ["Win32_Foundation", "Win32_UI_Input_KeyboardAndMouse", "Win32_UI_WindowsAndMessaging"] }
