[package]
name = "capture_stream"
version = "0.1.0"
edition = "2021"
publish = false

[dependencies]
base64-stream = "*"
embedded-svc = "*"
esp-idf-svc = "*"
