[package]
name = "sync_pointer"
version = "0.1.0"
edition = "2021"
publish = false

[dependencies]
dashmap = "6"
uuid = { version = "1", features = ["v4"] }
tokio = { version = "1", features = ["net", "rt", "rt-multi-thread", "sync", "time", "macros", "io-util"] }
tokio-util = { version = "0.7", features = ["codec"] }
futures-util = { version = "0.3", features = ["sink"] }
mdns-sd = "*"
rkyv = "0.8"
anyhow = "1"
parking_lot = "0.12"
local-ip-address = "*"
