[package]
name = "cubetonic"
version = "0.1.0"
edition = "2021"
publish = false

[dependencies]
anyhow = "*"
base64 = "*"
bytemuck = { version = "*", features = ["derive"] }
env_logger = "*"
glam = "*"
hex = "*"
image = { version = "*", default-features = false, features = ["png"] }
log = "*"
luanti-protocol = "*"
rand = "*"
rayon = "*"
tokio = { version = "*", features = ["rt-multi-thread", "sync", "macros", "net", "time"] }
wgpu = "*"
winit = "*"
