[package]
name = "k8s_sync"
version = "0.1.0"
edition = "2021"
publish = false

[dependencies]
base64 = "=0.13.1"
chrono = "=0.4.45"
http = "=0.2.12"
isahc = "=1.7.2"
k8s-openapi = { version = "=0.13.1", default-features = false, features = ["api", "v1_20"] }
serde = { version = "=1.0.229", features = ["derive"] }
serde_yaml = "=0.8.26"
tempfile = "=3.27.0"
