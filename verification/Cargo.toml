[package]
name = "apub_engine"
version = "0.1.0"
edition = "2021"
publish = false

[dependencies]
activitystreams = "=0.6.2"
serde = { version = "=1.0.229", features = ["derive"] }
serde_json = "=1.0.151"
url = { version = "=2.5.8", features = ["serde"] }
