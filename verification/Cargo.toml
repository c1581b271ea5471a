[package]
name = "rusty_editor"
version = "0.1.0"
edition = "2021"
publish = false

[dependencies]
colored = "=2.2.0"
image = { version = "=0.24.9", default-features = false, features = ["png", "jpeg", "bmp"] }
rusttype = "=0.9.3"
imageproc = "=0.23.1"
