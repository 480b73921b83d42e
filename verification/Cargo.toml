[package]
name = "odoo-operator"
version = "0.1.0"
edition = "2021"
publish = false

[dependencies]
anyhow = "=1.0.104"
arc-swap = "=1.9.3"
async-trait = "=0.1.92"
chrono = "=0.4.45"
clap = { version = "=4.6.7", features = ["derive", "env"] }
futures = "=0.3.34"
hex = "=0.4.3"
k8s-openapi = { version = "=0.25.0", features = ["latest", "schemars"] }
kube = { version = "=1.1.0", default-features = false, features = ["client", "rustls-tls", "ring", "derive", "runtime", "admission"] }
rand = "=0.8.8"
reqwest = { version = "=0.12.28", default-features = false, features = ["json", "rustls-tls"] }
rustls = { version = "=0.23.46", default-features = false, features = ["ring", "std", "tls12", "logging"] }
rustls-pemfile = "=2.2.0"
schemars = "=0.8.22"
serde = { version = "=1.0.229", features = ["derive"] }
serde_json = "=1.0.154"
serde_yaml = "=0.9.34"
sha2 = "=0.10.9"
thiserror = "=2.0.21"
tokio = { version = "=1.54.1", features = ["rt-multi-thread", "macros", "time", "signal", "sync", "fs", "net"] }
tokio-postgres = "=0.7.18"
tokio-rustls = { version = "=0.26.6", default-features = false, features = ["ring", "tls12", "logging"] }
tracing = "=0.1.44"
tracing-subscriber = { version = "=0.3.23", features = ["env-filter", "json"] }
warp = { version = "=0.3.7", features = ["tls"] }
x509-parser = "=0.16.0"

[dev-dependencies]
rcgen = { version = "=0.14.10", default-features = false, features = ["crypto", "pem", "ring"] }
