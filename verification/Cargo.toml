[package]
name = "rocketkit"
version = "0.1.0"
edition = "2021"
publish = false

[dependencies]
serde = { version = "=1.0.229", features = ["derive"] }
figment = "=0.10.19"
tokio = { version = "=1.54.1", features = ["signal", "rt"] }
tokio-stream = { version = "=0.1.19", features = ["signal"] }
futures = "=0.3.34"
