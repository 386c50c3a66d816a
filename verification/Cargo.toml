[package]
name = "kube-dra"
version = "0.1.0"
edition = "2021"
publish = false

[dependencies]
anyhow = "1"
async-trait = "0.1"
k8s-openapi = { version = "0.26", features = ["v1_34"] }
kube = { version = "2", default-features = false, features = ["client"] }
prost = "0.14"
thiserror = "2"
tokio = { version = "1", features = ["fs", "macros", "net", "rt-multi-thread", "sync"] }
tokio-stream = { version = "0.1", features = ["net"] }
tokio-util = "0.7"
tonic = "0.14"
tonic-prost = "0.14"
tracing = "0.1"
