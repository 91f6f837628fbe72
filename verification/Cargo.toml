[package]
name = "wasm_glue"
version = "0.1.0"
edition = "2021"
publish = false

[dependencies]
failure = "=0.1.8"
serde_json = "=1.0.154"
walrus = "=0.8.0"
wasm-bindgen-shared = "=0.2.130"
