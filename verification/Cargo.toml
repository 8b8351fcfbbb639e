[package]
name = "kv_service"
version = "0.1.0"
edition = "2021"
publish = false

[dependencies]
futures = "=0.1.31"
futures-util = { version = "=0.3.34", features = ["compat"] }
tokio-threadpool = "=0.1.18"
