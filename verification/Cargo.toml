[package]
name = "creep_core"
version = "0.1.0"
edition = "2021"
publish = false

[dependencies]
screeps-game-api = "=0.22.0"
js-sys = "0.3"
wasm-bindgen = "=0.2.100"
log = "=0.4.34"
serde = { version = "=1.0.229", features = ["derive"] }
serde-wasm-bindgen = "=0.6.5"
