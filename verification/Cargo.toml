[package]
name = "camo"
version = "0.1.0"
edition = "2021"
publish = false

[dependencies]
anyhow = "=1.0.104"
axum = "=0.8.9"
base64 = "=0.22.1"
clap = { version = "=4.6.7", features = ["derive", "env"] }
futures-util = "=0.3.34"
hex = "=0.4.3"
hmac = "=0.12.1"
http = "=1.5.0"
metrics = "=0.24.6"
metrics-exporter-prometheus = "=0.16.2"
reqwest = { version = "=0.12.28", default-features = false, features = ["rustls-tls", "stream"] }
sha1 = "=0.10.7"
thiserror = "=1.0.69"
tokio = { version = "=1.54.1", features = ["rt-multi-thread", "macros", "net"] }
tower-http = { version = "=0.6.11", features = ["trace"] }
tracing = "=0.1.44"
tracing-subscriber = { version = "=0.3.23", features = ["env-filter"] }
url = "=2.5.8"
urlencoding = "=2.1.3"
