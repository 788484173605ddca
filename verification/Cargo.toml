[package]
name = "subsocial_runtime"
version = "0.1.0"
edition = "2021"
publish = false

[dependencies]
parity-scale-codec = { version = "=3.7.5", features = ["derive"] }
sp-runtime = "=49.0.0"
sp-version = "=47.0.0"
frame-support = "=49.0.1"
frame-system = "=49.0.0"
