[package]
name = "gs_renderer"
version = "0.1.0"
edition = "2021"
publish = false

[dependencies]
wgpu = { version = "=30.0.1", features = ["noop"] }
bytemuck = { version = "=1.25.2", features = ["derive"] }
glam = { version = "=0.33.12", features = ["bytemuck"] }
web-sys = { version = "=0.3.107", features = ["HtmlCanvasElement"] }
wasm-bindgen = "=0.2.130"
console_error_panic_hook = "=0.1.7"
