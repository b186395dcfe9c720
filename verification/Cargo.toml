[package]
name = "docker_activity"
version = "0.1.0"
edition = "2021"
publish = false

[dependencies]
bollard = "0.12"
clap = { version = "=3.2.25", features = ["derive"] }
futures-util = "=0.3.34"
powercap = "=0.3.5"
serde = { version = "=1.0.229", features = ["derive"] }
serde_json = "=1.0.154"
tokio = { version = "=1.54.1", features = ["full"] }
tracing = "=0.1.44"
tracing-subscriber = "=0.3.23"
