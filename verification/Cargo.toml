[package]
name = "scene_engine"
version = "0.1.0"
edition = "2021"
publish = false

[dependencies]
wasm-bindgen = "=0.2.129"
js-sys = "=0.3.106"
console_error_panic_hook = "=0.1.7"

[dependencies.web-sys]
version = "=0.3.106"
features = [
    "Document",
    "Element",
    "EventTarget",
    "HtmlCanvasElement",
    "KeyboardEvent",
    "MouseEvent",
    "WebGl2RenderingContext",
    "WebGlBuffer",
    "WebGlProgram",
    "WebGlShader",
    "WebGlUniformLocation",
    "Window",
]
