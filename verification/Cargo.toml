[package]
name = "bendy_fs"
version = "0.1.0"
edition = "2021"
publish = false

[dependencies]
base64 = "=0.22.1"
hex = "=0.4.3"
hmac = "=0.12.1"
sha2 = "=0.10.9"
serde = { version = "=1.0.229", features = ["derive"] }
serde_json = "=1.0.154"
uuid = { version = "=1.29.0", features = ["v4"] }
web-time = "=1.1.0"
worker = { version = "=0.8.7", features = ["d1"] }
wasm-bindgen = "=0.2.130"
console_error_panic_hook = "=0.1.7"
