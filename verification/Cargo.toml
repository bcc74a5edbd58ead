[package]
name = "sockudo_redis"
version = "0.1.0"
edition = "2021"
publish = false

[dependencies]
redis = { version = "*", features = ["tokio-comp", "connection-manager", "cluster-async"] }
tokio = { version = "*", features = ["sync"] }
async-trait = "*"
parking_lot = "*"
tracing = "*"
