[package]
name = "pbr_core"
version = "0.1.0"
edition = "2021"
publish = false

[dependencies]
num = "*"
glium = "0.29"
gltf = "*"
image = "0.23"
nalgebra = "*"
nalgebra-glm = "*"
rapier3d = "*"
legion = "0.4"
crossbeam = "*"
