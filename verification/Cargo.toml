[package]
name = "portal_solutions_ai_interface"
version = "0.1.0"
edition = "2021"
publish = false

[dependencies]
anyhow = "*"
boa_engine = "*"
serde = { version = "*", features = ["derive"] }
serde_json = "*"
wasm-bindgen = "*"
extism-pdk = "*"
