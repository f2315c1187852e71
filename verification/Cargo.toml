[package]
name = "tokio_metrics_prometheus"
version = "0.1.0"
edition = "2021"
publish = false

[dependencies]
prometheus-client = "0.18"
tokio-metrics = "0.1"

[dev-dependencies]
tokio = { version = "1", features = ["rt", "time"] }
