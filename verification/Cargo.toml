[package]
name = "holiday_planifier"
version = "0.1.0"
edition = "2021"
publish = false

[dependencies]
futures = "0.3"
serde = { version = "1", features = ["derive"] }
serde_json = "1"
simple-actor = "*"
tokio = { version = "1", features = ["fs", "io-util", "rt"] }
