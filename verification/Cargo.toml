[package]
name = "wallheat"
version = "0.1.0"
edition = "2021"
publish = false

[dependencies]
anyhow = "1"
bytemuck = "1"
futures = "0.3"
futures-channel = "0.3"
rayon = "1"
wgpu = "0.19"
