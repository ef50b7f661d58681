[package]
name = "dnsfun"
version = "0.1.0"
edition = "2021"
publish = false

[dependencies]
anyhow = "=1.0.104"
async-trait = "=0.1.92"
chrono = "=0.4.45"
clap = { version = "=4.6.7", features = ["derive", "env"] }
k8s-openapi = { version = "=0.27.1", features = ["latest"] }
kube = "=3.1.0"
log = "=0.4.34"
pretty_env_logger = "=0.5.0"
thiserror = "=1.0.69"
tokio = { version = "=1.54.1", features = ["full"] }
trust-dns-resolver = "=0.22.0"
trust-dns-server = "=0.22.1"
