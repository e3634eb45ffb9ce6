[package]
name = "securenetes"
version = "0.1.0"
edition = "2021"
publish = false

[dependencies]
anyhow = "1"
askama = "*"
async-trait = "*"
axum = "*"
chrono = { version = "0.4", features = ["serde"] }
clap = { version = "4", features = ["derive"] }
http = "*"
k8s-openapi = { version = "*", features = ["latest"] }
kube = { version = "*", features = ["client", "rustls-tls"] }
reqwest = { version = "*", default-features = false, features = ["rustls-tls"] }
serde = { version = "1", features = ["derive"] }
serde_json = "1"
serde_yaml = "*"
tokio = { version = "1", features = ["full"] }
tower-http = { version = "*", features = ["fs"] }
tracing = "*"
tracing-subscriber = { version = "*", features = ["env-filter"] }
