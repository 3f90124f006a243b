[package]
name = "dsp_core"
version = "0.1.0"
edition = "2021"
publish = false

[dependencies]
rustfft = "*"
wasm-bindgen = "*"
console_error_panic_hook = "*"
