[package]
name = "rvemu"
version = "0.1.0"
edition = "2021"
publish = false

[dependencies]
wasm-bindgen = "=0.2.130"
web-sys = { version = "=0.3.107", features = ["Document", "Element", "Node", "Window"] }
