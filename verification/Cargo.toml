[package]
name = "webgl_demos"
version = "0.1.0"
edition = "2021"
publish = false

[dependencies]
gl_matrix = "*"
js-sys = "*"
wasm-bindgen = "*"
web-sys = { version = "*", features = [
    "Document",
    "Element",
    "HtmlCanvasElement",
    "HtmlImageElement",
    "Performance",
    "WebGlBuffer",
    "WebGlProgram",
    "WebGlRenderingContext",
    "WebGlShader",
    "WebGlTexture",
    "WebGlUniformLocation",
    "Window",
] }
