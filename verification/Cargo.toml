[package]
name = "matrix_bot"
version = "0.1.0"
edition = "2021"
publish = false

[dependencies]
futures = "=0.3.34"
log = "=0.4.34"
url = "=2.5.8"
hyper = "=0.13.10"
hyper-tls = "=0.4.3"
ruma-client = "=0.3.0"
serde_json = "=1.0.154"
