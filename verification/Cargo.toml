[package]
name = "image_resize_rust"
version = "0.1.0"
edition = "2021"
publish = false

[dependencies]
bytes = "=0.4.12"
futures = "=0.1.31"
serde_json = { version = "=1.0.154", features = ["preserve_order"] }
tempfile = "=3.27.0"
tokio = "=0.1.22"
