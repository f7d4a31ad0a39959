[package]
name = "blandango"
version = "0.1.0"
edition = "2021"
publish = false

[dependencies]
base64 = "=0.21.7"
convert_case = "=0.6.0"
hyper = { version = "=0.14.32", features = ["client", "http1", "http2", "runtime", "tcp"] }
log = "=0.4.34"
regex = "=1.13.1"
serde = { version = "=1.0.229", features = ["derive"] }
serde_json = "=1.0.154"
serde_url_params = "=0.2.1"
