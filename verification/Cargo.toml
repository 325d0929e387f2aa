[package]
name = "quic_metrics"
version = "0.1.0"
edition = "2021"
publish = false

[dependencies]
ipnetwork = { version = "0.20", default-features = false }
foundations = { version = "*", default-features = false, features = ["metrics"] }
serde = { version = "1", features = ["derive"] }
