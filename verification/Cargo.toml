[package]
name = "sph_gl"
version = "0.1.0"
edition = "2021"
publish = false

[dependencies]
rand = "0.8"
gl = "0.14"
glm = "*"
sdl2 = "*"
imgui = "*"
imgui-sdl2 = "*"
imgui-opengl-renderer = "*"
