[package]
name = "microworlds"
version = "0.1.0"
edition = "2021"
publish = false

[dependencies]
image = { version = "=0.24.9", default-features = false, features = ["png", "jpeg", "bmp"] }
phf = { version = "=0.11.3", features = ["macros"] }
rand = "0.8"
