[package]
name = "cellarium"
version = "0.1.0"
edition = "2021"
publish = false

[dependencies]
syn = { version = "=2.0.119", features = ["full"] }
quote = "=1.0.47"
proc-macro2 = "=1.0.107"
serde_json = "=1.0.154"
bytemuck = { version = "=1.25.2", features = ["derive"] }
wgpu = "=28.0.0"
winit = "=0.30.13"
pollster = "=0.4.0"
env_logger = "=0.11.11"
log = "=0.4.35"
ratatui = "=0.29.0"
