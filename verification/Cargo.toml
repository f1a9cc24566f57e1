[package]
name = "pod_lifecycle"
version = "0.1.0"
edition = "2021"
publish = false

[dependencies]
anyhow = "=1.0.104"
async-trait = "=0.1.92"
k8s-openapi = { version = "=0.13.1", default-features = false, features = ["v1_20"] }
krator = { version = "=0.6.0", default-features = false }
kube = { version = "=0.64.0", default-features = false, features = ["client"] }
log = "=0.4.34"
serde_json = "=1.0.154"
thiserror = "=1.0.69"
