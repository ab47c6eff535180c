[package]
name = "kafka_relay"
version = "0.1.0"
edition = "2021"
publish = false

[dependencies]
bytes = "1"
hyper = { version = "0.14", features = ["full"] }
rdkafka = "0.36"
serde = { version = "1", features = ["derive"] }
serde_json = "1"
testcontainers = "0.15"
tokio = { version = "1", features = ["full"] }
tokio-uring = "0.5"
