[package]
name = "jars"
version = "0.1.0"
edition = "2021"
publish = false

[dependencies]
http = "=0.2.12"
hyper = { version = "=0.14.32", features = ["full"] }
tokio = { version = "=1.54.1", features = ["full"] }
redis = { version = "=0.23.5", features = ["aio", "tokio-comp"] }
config = "=0.10.1"
serde = { version = "=1.0.229", features = ["derive"] }
lazy_static = "=1.5.1"
futures = "=0.3.34"
futures-util = "=0.3.34"
async-trait = "=0.1.92"
etcd-rs = "=0.6.0"
