[package]
name = "bevy_image_export"
version = "0.1.0"
edition = "2021"
publish = false

[dependencies]
futures = "=0.3.34"
futures-lite = "=1.13.0"
wgpu = "=0.17.2"
