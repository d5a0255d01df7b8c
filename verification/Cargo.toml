[package]
name = "ding"
version = "0.1.0"
edition = "2021"
publish = false

[dependencies]
anyhow = "=1.0.104"
axum = "=0.5.17"
chrono = "=0.4.45"
clap = { version = "=3.2.25", features = ["derive"] }
hyper = { version = "=0.14.32", features = ["full"] }
reqwest = { version = "=0.11.27", default-features = false, features = ["json", "rustls-tls"] }
serde = { version = "=1.0.229", features = ["derive"] }
serde_json = "=1.0.154"
tokio = { version = "=1.54.1", features = ["full"] }
tower = { version = "=0.4.13", features = ["timeout"] }
tower-http = { version = "=0.3.5", features = ["trace"] }
tracing = "=0.1.44"
tracing-subscriber = "0.3"
validator = { version = "=0.16.1", features = ["derive"] }
