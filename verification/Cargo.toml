[package]
name = "dispctl"
version = "0.1.0"
edition = "2021"
publish = false

[dependencies]
clap = { version = "*", features = ["derive"] }
serde = { version = "*", features = ["derive"] }
widestring = "*"
windows-sys = { version = "*", features = ["Win32_Foundation", "Win32_Graphics_Gdi"] }
