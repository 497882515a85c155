[package]
name = "tensor_fuse"
version = "0.1.0"
edition = "2021"
publish = false

[dependencies]
wgpu = "*"
bytemuck = "*"
half = "*"
tokio = { version = "*", features = ["full"] }
