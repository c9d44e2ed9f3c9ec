[package]
name = "graphicat"
version = "0.1.0"
edition = "2021"
publish = false

[dependencies]
ash = "=0.37.3"
raw-window-handle = "=0.6.2"
glfw = { version = "=0.54.0", default-features = false, features = ["vulkan"] }
winit = "=0.29.15"
