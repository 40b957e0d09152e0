[package]
name = "pbr_demo"
version = "0.1.0"
edition = "2021"
publish = false

[dependencies]
gl = "0.14"
glfw = "*"
gltf = "*"
image = { version = "0.23", default-features = false, features = ["hdr"] }
