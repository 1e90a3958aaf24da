[package]
name = "night_sky"
version = "0.1.0"
edition = "2021"
publish = false

[dependencies]
rand = "0.9"
wasm-bindgen = "0.2"
web-sys = { version = "0.3", features = ["CanvasGradient", "CanvasRenderingContext2d", "Document", "Element", "HtmlCanvasElement", "ImageData", "Window", "console"] }
