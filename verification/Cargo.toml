[package]
name = "heph_gl"
version = "0.1.0"
edition = "2021"
publish = false

[dependencies]
ash = "=0.38.0"
ash-window = "=0.13.0"
raw-window-handle = "=0.6.2"
vk-mem = "0.5"
naga = { version = "=30.0.1", features = ["spv-in"] }
renkrs = "=0.1.1"
