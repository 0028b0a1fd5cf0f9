[package]
name = "simple_screenshot_tool"
version = "0.1.0"
edition = "2021"
publish = false

[dependencies]
time = { version = "0.3", features = ["local-offset"] }
arboard = { version = "3", default-features = false, features = ["image-data"] }
dirs = "5"
