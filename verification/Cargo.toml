[package]
name = "ambient_schema"
version = "0.1.0"
edition = "2021"
publish = false

[dependencies]
sha2 = "=0.11.0"
base16ct = { version = "=1.0.0", features = ["alloc"] }
serde = { version = "=1.0.229", features = ["derive"] }
serde_plain = "=1.0.2"
parse-display = "=0.11.0"
semver = { version = "=1.0.28", features = ["serde"] }
ts-rs = "=12.0.1"
anyhow = "=1.0.104"
ambient_package = "=0.3.1"
firestore = "=0.57.3"
firebase-wasm = "=0.7.0"
serde-wasm-bindgen = "=0.6.5"
