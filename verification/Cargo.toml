[package]
name = "pyorion"
version = "0.1.0"
edition = "2021"
publish = false

[dependencies]
anyhow = "=1.0.104"
arboard = "=3.7.0"
base64 = "=0.22.1"
image = { version = "=0.25.10", default-features = false, features = ["png", "jpeg", "ico", "bmp"] }
once_cell = "=1.21.4"
pyo3 = "=0.30.1"
serde = { version = "=1.0.229", features = ["derive"] }
serde_json = "=1.0.154"
tao = "=0.37.2"
tokio = { version = "=1.54.1", features = ["sync", "io-util", "time", "net", "rt"] }
wry = { version = "=0.57.1", features = ["devtools"] }
