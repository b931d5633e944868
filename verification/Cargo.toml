[package]
name = "broker_framing"
version = "0.1.0"
edition = "2021"
publish = false

[dependencies]
thiserror = "*"
tracing = "*"
tracing-subscriber = { version = "*", features = ["env-filter"] }
