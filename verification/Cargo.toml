[package]
name = "vulkanapp"
version = "0.1.0"
edition = "2021"
publish = false

[dependencies]
ash = "=0.37.3"
glfw = { version = "=0.51.0", default-features = false, features = ["vulkan"] }
image = { version = "=0.24.9", default-features = false, features = ["png"] }
