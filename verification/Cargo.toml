[package]
name = "subtensor_node"
version = "0.1.0"
edition = "2021"
publish = false

[dependencies]
sp-core = { version = "*", default-features = false }
tokio = { version = "1", features = ["sync", "rt", "macros"] }
futures = "0.3"
log = "0.4"
