[package]
name = "rusted_engine"
version = "0.1.0"
edition = "2021"
publish = false

[dependencies]
gl = "0.14"
glfw = "*"
image = { version = "*", default-features = false, features = ["png", "jpeg"] }
nalgebra = "*"
serde = { version = "1", features = ["derive"] }
serde_json = "1"
