[package]
name = "goods"
version = "0.1.0"
edition = "2021"
publish = false

[dependencies]
base64 = "=0.13.1"
urlencoding = "=2.1.3"
num_cpus = "=1.17.0"
hashbrown = "=0.11.2"
serde = { version = "=1.0.229", features = ["derive"] }
serde_json = "=1.0.154"
tokio = { version = "=1.54.1", features = ["rt"] }
uuid = { version = "0.8", features = ["v4"] }
