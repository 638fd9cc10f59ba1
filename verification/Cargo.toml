[package]
name = "meme_pipeline"
version = "0.1.0"
edition = "2021"
publish = false

[dependencies]
gloo = "*"
gloo-events = "*"
js-sys = "*"
reqwest-wasm = { version = "*", default-features = false, features = ["json"] }
serde_json = "*"
wasm-bindgen = "*"
wasm-bindgen-futures = "*"
web-sys = { version = "*", features = ["Document", "Element", "Window", "console"] }
