[package]
name = "tls_connect"
version = "0.1.0"
edition = "2021"
publish = false

[dependencies]
futures = "=0.3.34"
log = "=0.4.34"
openssl = "=0.10.81"
tokio = { version = "=0.2.25", features = ["tcp"] }
tokio-openssl = "=0.4.0"
