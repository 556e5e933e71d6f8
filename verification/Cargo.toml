[package]
name = "edgelet_http_workload"
version = "0.1.0"
edition = "2021"
publish = false

[dependencies]
serde_json = "1"
http = "0.2"
hyper = { version = "0.14", default-features = false }
