[package]
name = "rust_ui"
version = "0.1.0"
edition = "2021"
publish = false

[dependencies]
arboard = "*"
taffy = "*"
ureq = "*"
resvg = "*"
image = { version = "*", default-features = false, features = ["png", "jpeg"] }
