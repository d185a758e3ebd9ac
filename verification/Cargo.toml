[package]
name = "empty_backend"
version = "0.1.0"
edition = "2021"
publish = false

[dependencies]
glow = "=0.11.2"
log = "=0.4.34"
notan_audio = "=0.3.0"
notan_graphics = "=0.3.0"
wasm-bindgen = "=0.2.129"
web-sys = { version = "=0.3.106", features = ["HtmlCanvasElement", "WebGlContextAttributes", "WebGlRenderingContext", "WebGl2RenderingContext"] }
