[package]
name = "asimov_image_module"
version = "0.1.0"
edition = "2021"
publish = false

[dependencies]
image = { version = "=0.25.10", default-features = false, features = ["png", "jpeg", "bmp"] }
serde_json = "=1.0.151"
know = "=0.2.13"
clap = { version = "4", features = ["derive"] }
minifb = { version = "0.29", default-features = false, features = ["x11"] }
thiserror = "2"
