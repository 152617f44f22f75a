[package]
name = "rusimg"
version = "0.1.0"
edition = "2021"
publish = false

[dependencies]
image = "*"
jpeg-encoder = "*"
oxipng = { version = "*", default-features = false }
webp = "*"
