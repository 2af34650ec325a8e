[package]
name = "log_relay"
version = "0.1.0"
edition = "2021"
publish = false

[dependencies]
rocket = { version = "=0.5.2", features = ["json"] }
kube = { version = "=3.1.0", default-features = false, features = ["client"] }
k8s-openapi = { version = "=0.27.1", features = ["latest"] }
