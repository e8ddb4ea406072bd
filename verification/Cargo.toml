[package]
name = "didcomm"
version = "0.1.0"
edition = "2021"
publish = false

[dependencies]
askar-crypto = "=0.3.7"
async-trait = "=0.1.92"
base64 = "=0.13.1"
bs58 = "=0.5.1"
futures = "=0.3.34"
js-sys = "=0.3.106"
lazy_static = "=1.5.1"
serde = { version = "=1.0.229", features = ["derive"] }
serde_json = "=1.0.154"
sha2 = "=0.10.9"
wasm-bindgen = "=0.2.129"
wasm-bindgen-futures = "=0.4.79"
