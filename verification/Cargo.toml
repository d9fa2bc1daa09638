[package]
name = "microsandbox"
version = "0.1.0"
edition = "2021"
publish = false

[dependencies]
axum = "=0.8.9"
indicatif = "=0.17.11"
jsonwebtoken = "=9.3.1"
oci-client = { version = "=0.18.0", default-features = false, features = ["native-tls"] }
serde = { version = "=1.0.229", features = ["derive"] }
serde_json = "=1.0.154"
thiserror = "=2.0.21"
tokio = { version = "=1.54.1", features = ["rt"] }
tracing = "=0.1.44"
