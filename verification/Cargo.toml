[package]
name = "dunge"
version = "0.1.0"
edition = "2021"
publish = false

[dependencies]
bytemuck = "1"
glam = "0.29"
log = "0.4"
parking = "2"
pollster = "0.4"
proc-macro2 = "1"
quote = "1"
syn = { version = "2", features = ["full"] }
web-time = "1"
wgpu = "24"
winit = { version = "0.30", default-features = false, features = ["x11", "rwh_06"] }
