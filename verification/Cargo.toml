[package]
name = "cars_api"
version = "0.1.0"
edition = "2021"
publish = false

[dependencies]
hyper = { version = "0.14", features = ["http1", "server"] }
rand = "0.8"
serde_json = "1"
tokio = { version = "1", features = ["macros", "net", "rt-multi-thread"] }
