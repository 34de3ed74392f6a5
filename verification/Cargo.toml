[package]
name = "meteroid"
version = "0.1.0"
edition = "2021"
publish = false

[dependencies]
uuid = { version = "=1.29.1", features = ["serde", "v7"] }
serde = { version = "=1.0.229", features = ["derive"] }
serde_json = "=1.0.154"
rdkafka = "=0.39.0"
http = "=1.5.0"
