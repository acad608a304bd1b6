[package]
name = "ttn-ingest"
version = "0.1.0"
edition = "2021"
publish = false

[dependencies]
anyhow = "=1.0.104"
chrono = "=0.4.45"
display-interface = "=0.5.0"
embassy-sync = "=0.6.2"
embassy-time = "=0.4.0"
embedded-graphics = "=0.8.2"
futures = "=0.3.34"
heapless = "=0.8.0"
influxdb2 = { version = "=0.5.2", default-features = false, features = ["rustls"] }
reqwest = { version = "=0.12.28", default-features = false, features = ["rustls-tls", "stream"] }
serde = { version = "=1.0.229", features = ["derive"] }
serde_json = "=1.0.154"
ssd1306 = { version = "=0.10.0", features = ["async"] }
tokio = { version = "=1.54.1", features = ["io-util", "macros", "net", "rt-multi-thread", "time"] }
tracing = "=0.1.44"
tracing-subscriber = { version = "=0.3.23", features = ["env-filter"] }
