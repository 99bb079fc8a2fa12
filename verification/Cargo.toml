[package]
name = "voxellaneous_core"
version = "0.1.0"
edition = "2021"
publish = false

[dependencies]
bytemuck = "1"
serde = { version = "1", features = ["derive"] }
serde-wasm-bindgen = "0.6"
wasm-bindgen = "0.2"
wasm-bindgen-futures = "0.4"
web-sys = { version = "0.3", features = ["HtmlCanvasElement"] }
wgpu = "25"
