[package]
name = "shotview"
version = "0.1.0"
edition = "2021"
publish = false

[dependencies]
image = { version = "=0.24.9", default-features = false }
pixels = { version = "0.13", default-features = false }
winit = { version = "0.28", default-features = false, features = ["x11"] }
