[package]
name = "sofka"
version = "0.1.0"
edition = "2021"
publish = false

[dependencies]
crossterm = "*"
serde_json = "*"
serde_yaml = "*"
tokio = { version = "*", features = ["rt", "sync", "macros"] }
futures = "*"
kube = { version = "*", features = ["runtime", "client"] }
k8s-openapi = { version = "*", features = ["latest"] }
