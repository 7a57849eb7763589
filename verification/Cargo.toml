[package]
name = "coro-engine"
version = "0.1.0"
edition = "2021"
publish = false

[dependencies]
async-trait = "0.1"
axum = "0.8"
base64 = "=0.22.1"
bytes = "1"
celestia-types = { version = "=1.3.0", default-features = false }
clap = { version = "4", features = ["derive"] }
commonware-codec = "=2026.5.0"
commonware-cryptography = "=2026.5.0"
commonware-formatting = "=2026.5.0"
commonware-parallel = "=2026.5.0"
commonware-utils = "=2026.5.0"
futures = "0.3"
rand_core = { version = "0.6", features = ["getrandom"] }
reqwest = { version = "0.12", default-features = false, features = ["json", "rustls-tls"] }
serde = { version = "1", features = ["derive"] }
serde_json = "=1.0.154"
serde_yaml = "0.9"
thiserror = "2"
tokio = { version = "1", features = ["rt", "net", "time", "sync", "macros"] }
tower-http = { version = "0.6", features = ["cors"] }
tracing = "0.1"
tracing-subscriber = "0.3"

[dev-dependencies]
tower = { version = "0.5", features = ["util"] }
