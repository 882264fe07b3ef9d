[package]
name = "camera_capture"
version = "0.1.0"
edition = "2021"
publish = false

[dependencies]
nokhwa = { version = "0.10", default-features = false }
image = { version = "*", default-features = false }
minifb = "*"
thiserror = "1"
