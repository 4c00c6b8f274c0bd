[package]
name = "dht20"
version = "0.1.0"
edition = "2021"
publish = false

[dependencies]
metrics = "*"
metrics-exporter-prometheus = { version = "*", default-features = false, features = ["http-listener"] }
metrics-util = "*"
rppal = "*"
