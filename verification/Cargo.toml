[package]
name = "rival650_battery"
version = "0.1.0"
edition = "2021"
publish = false

[dependencies]
hidapi = "2"
image = { version = "0.24", default-features = false, features = ["png"] }
include_dir = "0.7"
tao = "*"
tray-icon = "*"
