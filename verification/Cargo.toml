[package]
name = "merco"
version = "0.1.0"
edition = "2021"
publish = false

[dependencies]
bigdecimal = "0.4"
chrono = { version = "0.4", default-features = false, features = ["std", "clock"] }
libloading = "0.8"
serde = { version = "1", features = ["derive"] }
serde_json = "1"
tokio = { version = "1", features = ["sync", "rt", "rt-multi-thread", "macros"] }
tokio-util = "0.7"
uuid = { version = "1", features = ["v4", "serde"] }
