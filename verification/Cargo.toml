[package]
name = "ogl"
version = "0.1.0"
edition = "2021"
publish = false

[dependencies]
gl = "=0.14.0"
glfw = "0.51"
image = { version = "0.23", default-features = false, features = ["png", "jpeg"] }
nalgebra-glm = "=0.21.0"
