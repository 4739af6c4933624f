[package]
name = "coa_apiservice"
version = "0.1.0"
edition = "2021"
publish = false

[dependencies]
axum = "=0.6.20"
deadpool-postgres = "=0.12.1"
hyper = "=0.14.32"
k8s-openapi = { version = "=0.20.0", features = ["v1_28"] }
kube = "=0.87.2"
log = "=0.4.34"
serde = { version = "=1.0.229", features = ["derive"] }
std-logger = "=0.5.10"
tokio = { version = "=1.53.2", features = ["macros", "rt-multi-thread"] }
tokio-postgres = { version = "=0.7.18", features = ["with-uuid-1"] }
tower = { version = "=0.4.13", features = ["timeout", "util"] }
uuid = { version = "=1.27.0", features = ["serde"] }
