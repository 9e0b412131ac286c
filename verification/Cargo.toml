[package]
name = "raytracing"
version = "0.1.0"
edition = "2021"
publish = false

[dependencies]
nalgebra-glm = "=0.21.0"
rand = "=0.8.8"
sdl2 = { version = "=0.38.0", features = ["image", "unsafe_textures"] }
