[package]
name = "eagl_surface"
version = "0.1.0"
edition = "2021"
publish = false

[dependencies]
objc = "0.2"
winit = "0.18"
