[package]
name = "raw_math"
version = "0.1.0"
edition = "2021"
publish = false

[dependencies]
rapier3d = "*"
wasm-bindgen = "*"
js-sys = "*"
