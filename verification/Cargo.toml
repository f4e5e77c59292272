[package]
name = "kafka_chat"
version = "0.1.0"
edition = "2021"
publish = false

[dependencies]
rdkafka = "*"
tokio = { version = "*", features = ["rt-multi-thread", "macros", "io-std", "io-util"] }
uuid = { version = "*", features = ["v4"] }
