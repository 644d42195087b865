[package]
name = "nexo-plugin-web-search"
version = "0.1.0"
edition = "2021"
publish = false

[dependencies]
anyhow = "=1.0.104"
arc-swap = "=1.9.3"
clap = { version = "=4.6.7", default-features = false, features = ["std", "help", "usage", "error-context"] }
dashmap = "=6.2.1"
nexo-broker = "=0.1.6"
nexo-config = "=0.1.10"
nexo-microapp-sdk = { version = "=0.1.20", features = ["plugin"] }
nexo-web-search = "=0.2.1"
once_cell = "=1.21.4"
rustls = { version = "=0.23.46", default-features = false, features = ["ring", "std", "logging", "tls12"] }
serde = { version = "=1.0.229", features = ["derive"] }
serde_json = "=1.0.154"
serde_yaml = "=0.9.34"
tokio = { version = "=1.54.1", features = ["full"] }
tracing = "=0.1.44"
tracing-subscriber = { version = "=0.3.23", default-features = false, features = ["fmt", "env-filter", "std"] }

[dev-dependencies]
nexo-plugin-manifest = "0.1"
toml = "0.8"
