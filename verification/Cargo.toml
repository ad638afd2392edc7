[package]
name = "napi"
version = "0.1.0"
edition = "2021"
publish = false

[dependencies]
napi-sys = { version = "=3.4.1", features = ["napi6"] }
syn = { version = "=1.0.109", features = ["full"] }
quote = "=1.0.47"
proc-macro2 = "=1.0.107"
rayon = "=1.12.0"
js-sys = "=0.3.106"
wasm-bindgen = "=0.2.129"
