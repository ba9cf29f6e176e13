[package]
name = "kube_switch"
version = "0.1.0"
edition = "2021"
publish = false

[dependencies]
kube = { version = "*", default-features = false, features = ["client", "config", "rustls-tls"] }
k8s-openapi = { version = "*", features = ["latest"] }
serde_json = "*"
serde_yaml = "*"
tokio = { version = "*", features = ["macros", "rt-multi-thread"] }
clap = { version = "*", features = ["derive"] }
anyhow = "*"
