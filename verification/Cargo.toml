[package]
name = "battery_tray"
version = "0.1.0"
edition = "2021"
publish = false

[dependencies]
battery = "0.7"
gtk = "0.18"
image = { version = "0.24", default-features = false, features = ["png"] }
tray-icon = "0.11"
winit = "0.29"
