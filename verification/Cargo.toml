[package]
name = "yee_player"
version = "0.1.0"
edition = "2021"
publish = false

[dependencies]
rodio = "0.15"
legion = "0.4"
winit = "0.26"
wgpu = "0.12"
raw-window-handle = "0.4"
futures = "0.3"
zerocopy = "0.6"
ron = "0.7"
serde = { version = "1", features = ["derive"] }
log = "0.4"
env_logger = "0.9"
