[package]
name = "hex-motor"
version = "0.1.0"
edition = "2021"
publish = false

[dependencies]
arc-swap = "1"
can-transport = "0.1"
canopen-sdo = "*"
futures = "0.3"
log = "0.4"
thiserror = "2"
tokio = { version = "1", features = ["sync", "time", "rt", "macros"] }
tokio-util = "0.7"
