[package]
name = "pentagon"
version = "0.1.0"
edition = "2021"
publish = false

[dependencies]
bytemuck = { version = "1", features = ["derive"] }
image = { version = "0.25", default-features = false, features = ["png"] }
naga = { version = "23", features = ["wgsl-in"] }
pollster = "0.3"
wasm-bindgen-futures = "0.4"
wgpu = "23"
winit = "0.30"
