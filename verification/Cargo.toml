[package]
name = "monitors"
version = "0.1.0"
edition = "2021"
publish = false

[dependencies]
windows = { version = "=0.48.0", default-features = false, features = ["Win32_Foundation", "Win32_Graphics_Gdi"] }
