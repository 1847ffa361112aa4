[package]
name = "shoyu"
version = "0.1.0"
edition = "2021"
publish = false

[dependencies]
dashi = "*"
fontdue = "*"
glam = "*"
image = "*"
inline-spirv = "*"
rand = "0.8"
sdl2 = "*"
serde = { version = "1", features = ["derive"] }
serde_json = "1"
unzip3 = "*"
