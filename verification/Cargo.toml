[package]
name = "riff_bindgen"
version = "0.1.0"
edition = "2021"
publish = false

[dependencies]
heck = "=0.5.0"
syn = { version = "=2.0.119", features = ["full"] }
proc-macro2 = "=1.0.107"
quote = "=1.0.47"
