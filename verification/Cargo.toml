[package]
name = "event_bus"
version = "0.1.0"
edition = "2021"
publish = false

[dependencies]
serde_json = "1"
chrono = "0.4"
clap = "2"
colored = "1"
fern = "0.6"
log = "0.4"
futures = "0.1"
futures-cpupool = "0.1"
tokio-core = "0.1"
websocket = { version = "0.26", default-features = false, features = ["async"] }
rdkafka = "*"
