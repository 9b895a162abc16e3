[package]
name = "veritas_core"
version = "0.1.0"
edition = "2021"
publish = false

[dependencies]
serde_json = "=1.0.151"
c2pa = "=0.90.22"
wasm-bindgen = "=0.2.129"
console_error_panic_hook = "=0.1.7"
