[package]
name = "render_loop"
version = "0.1.0"
edition = "2021"
publish = false

[dependencies]
bytemuck = { version = "=1.25.2", features = ["derive"] }
cfg-if = "=1.0.5"
console_error_panic_hook = "=0.1.7"
console_log = "=0.2.2"
env_logger = "=0.10.2"
log = "=0.4.34"
wasm-bindgen = "0.2"
web-sys = { version = "0.3", features = ["Document", "Element", "Window"] }
wgpu = "0.16"
winit = "0.28"
