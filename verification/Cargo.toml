[package]
name = "node_fetch"
version = "0.1.0"
edition = "2021"
publish = false

[dependencies]
js-sys = "*"
serde = { version = "*", features = ["derive"] }
serde_json = "*"
wasm-bindgen = "*"
wasm-bindgen-futures = "*"
web-sys = { version = "*", features = ["console"] }
