[package]
name = "rust_image_gen"
version = "0.1.0"
edition = "2021"
publish = false

[dependencies]
image = { version = "=0.25.10", default-features = false, features = ["png", "jpeg", "gif", "bmp", "webp"] }
pyo3 = { version = "=0.22.6", features = ["extension-module", "abi3-py38"] }
