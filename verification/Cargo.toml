[package]
name = "sonar"
version = "0.1.0"
edition = "2021"
publish = false

[dependencies]
duration-string = "*"
chrono = "0.4"
serde = { version = "1", features = ["derive"] }
serde_yaml = "0.8"
serde_json = "1"
grafana-dashboard = "*"
tokio = { version = "0.2", features = ["full"] }
hyper = "0.13"
reqwest = { version = "0.10", default-features = false }
clap = "2"
notify = "4"
prometheus = "0.13"
futures = "0.3"
log = "0.4"
simplelog = "0.8"
