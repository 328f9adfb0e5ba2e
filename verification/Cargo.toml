[package]
name = "veyra"
version = "0.1.0"
edition = "2021"
publish = false

[dependencies]
futures-util = "=0.3.34"
getrandom = "=0.3.4"
reqwest = { version = "=0.12.28", default-features = false }
serde = { version = "=1.0.229", features = ["derive"] }
serde_json = "=1.0.154"
serde_yaml_ng = "=0.10.0"
sha2 = "=0.10.9"
tokio = { version = "=1.54.1", features = ["rt", "time", "sync", "net"] }
