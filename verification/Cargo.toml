[package]
name = "vine"
version = "0.1.0"
edition = "2021"
publish = false

[dependencies]
tokio = { version = "1", features = ["full"] }
serde_json = "1"
tonic = "*"
http = "1"
thiserror = "*"
parking_lot = "*"
dashmap = "*"
lazy_static = "*"
once_cell = "*"
log = "*"
futures = "*"
futures-util = "*"
tokio-stream = "*"
open = "*"
