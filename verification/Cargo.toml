[package]
name = "arctis_battery"
version = "0.1.0"
edition = "2021"
publish = false

[dependencies]
hidapi = "2"
image = { version = "0.24", default-features = false, features = ["png"] }
tray-icon = "0.14"
winit = "0.29"
