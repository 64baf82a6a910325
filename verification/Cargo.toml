[package]
name = "js_intern"
version = "0.1.0"
edition = "2021"
publish = false

[dependencies]
wasm-bindgen = "0.2"
syn = { version = "2", features = ["full"] }
quote = "1"
proc-macro2 = "1"
