[package]
name = "agent0_tray"
version = "0.1.0"
edition = "2021"
publish = false

[dependencies]
reqwest = { version = "*", default-features = false }
tokio = { version = "*", default-features = false, features = ["rt-multi-thread", "macros"] }
webbrowser = "*"
