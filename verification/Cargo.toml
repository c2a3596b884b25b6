[package]
name = "flyte_core"
version = "0.1.0"
edition = "2021"
publish = false

[dependencies]
num-complex = "0.4"
serde = { version = "1", features = ["derive"] }
wasm-bindgen = "0.2"
console_error_panic_hook = "0.1"
