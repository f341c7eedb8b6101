[package]
name = "window_session"
version = "0.1.0"
edition = "2021"
publish = false

[dependencies]
winit = "0.30"
wasm-bindgen = "0.2"
web-sys = { version = "0.3", features = ["Window", "Document", "HtmlElement", "HtmlCanvasElement", "CssStyleDeclaration", "Element", "Node"] }
console_error_panic_hook = "0.1"
