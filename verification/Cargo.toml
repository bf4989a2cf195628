[package]
name = "vulkan_playground"
version = "0.1.0"
edition = "2021"
publish = false

[dependencies]
ash = "0.37"
vk-mem = "0.3"
winit = { version = "0.27", default-features = false, features = ["x11"] }
nalgebra-glm = "0.18"
stb_image_rust = "*"
