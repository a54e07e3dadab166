[package]
name = "tiny_render"
version = "0.1.0"
edition = "2021"
publish = false

[dependencies]
bytemuck = "1"
gl = "0.14"
glfw = "*"
nalgebra-glm = "*"
