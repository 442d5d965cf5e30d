[package]
name = "auth_gate"
version = "0.1.0"
edition = "2021"
publish = false

[dependencies]
alcoholic_jwt = "=10039.0.0"
base64 = "=0.23.1"
serde_json = "=1.0.154"
serde = { version = "=1.0.229", features = ["derive"] }
anyhow = "=1.0.104"
env_logger = "=0.11.11"
reqwest = { version = "=0.11.27", features = ["json"] }
tokio = { version = "=1.54.1", features = ["full"] }
warp = "=0.3.7"
seed = "=0.9.2"
serde-wasm-bindgen = "=0.6.5"
wasm-bindgen = "=0.2.129"
wasm-bindgen-futures = "=0.4.79"
