[package]
name = "overlay_compositor"
version = "0.1.0"
edition = "2021"
publish = false

[dependencies]
geng = { version = "=0.9.0", default-features = false }
sciter-rs = { version = "=0.5.58", features = ["windowless"] }
