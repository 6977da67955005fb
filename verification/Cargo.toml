[package]
name = "argo_hermes"
version = "0.1.0"
edition = "2021"
publish = false

[dependencies]
handlebars = "=6.4.4"
serde = { version = "=1.0.229", features = ["derive"] }
serde_json = "=1.0.151"
warp = { version = "=0.4.3", features = ["server"] }
tokio = { version = "=1.53.2", features = ["macros", "rt-multi-thread", "signal"] }
clap = "=3.2.25"
kube = { version = "=3.1.0", default-features = false, features = ["client", "rustls-tls"] }
k8s-openapi = { version = "=0.27.1", features = ["latest"] }
reqwest = { version = "=0.12.28", default-features = false, features = ["json", "rustls-tls"] }
parking_lot = "=0.12.5"
async-trait = "=0.1.92"
