[package]
name = "clammy"
version = "0.1.0"
edition = "2021"
publish = false

[dependencies]
system-tray = "*"
tokio = { version = "*", features = ["rt-multi-thread", "macros", "sync", "time"] }
hyprland = "*"
