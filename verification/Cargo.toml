[package]
name = "orbit_camera"
version = "0.1.0"
edition = "2021"
publish = false

[dependencies]
cordic = "0.1"
fixed = "1"
glam = "0.29"
winit = "0.30"
