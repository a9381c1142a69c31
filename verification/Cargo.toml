[package]
name = "wasm_smith"
version = "0.1.0"
edition = "2021"
publish = false

[dependencies]
arbitrary = { version = "1", features = ["derive"] }
wast = "35"

[dev-dependencies]
wasm-encoder = "0.4"
