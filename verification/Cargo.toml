[package]
name = "atomsim"
version = "0.1.0"
edition = "2021"
publish = false

[dependencies]
wasm-bindgen = "*"
js-sys = "*"
web-sys = { version = "*", features = ["CanvasRenderingContext2d"] }
serde = { version = "*", features = ["derive"] }
