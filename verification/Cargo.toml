[package]
name = "ruma-client"
version = "0.1.0"
edition = "2021"
publish = false

[dependencies]
futures = "=0.3.34"
hyper = { version = "=0.14.32", features = ["client", "http1", "http2", "tcp"] }
hyper-tls = "=0.5.0"
native-tls = "=0.2.18"
ruma-api = "=0.20.1"
ruma-client-api = { version = "=0.13.0", features = ["client"] }
ruma-identifiers = "=0.22.1"
serde = "=1.0.229"
serde_json = "=1.0.154"
serde_urlencoded = "=0.7.1"
url = "=2.5.8"
