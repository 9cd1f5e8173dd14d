[package]
name = "deepinfra-client-rs"
version = "0.1.0"
edition = "2021"
publish = false

[dependencies]
http = "=1.5.0"
reqwest = { version = "=0.12.28", features = ["multipart", "stream"] }
serde_json = "=1.0.154"

[dev-dependencies]
http-body-util = "=0.1.5"
tokio = { version = "=1.54.1", features = ["rt", "net", "io-util", "time"] }
