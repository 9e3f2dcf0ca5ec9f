[package]
name = "k8s"
version = "0.1.0"
edition = "2021"
publish = false

[dependencies]
anyhow = "1"
chrono = "0.4"
k8s-openapi = { version = "0.25", features = ["latest"] }
kube = { version = "1", default-features = false, features = ["client"] }
log = "0.4"
regex = "1"
serde = { version = "1", features = ["derive"] }
serde_json = "1"
tokio = { version = "1", features = ["time"] }
