[package]
name = "ractor_cluster"
version = "0.1.0"
edition = "2021"
publish = false

[dependencies]
async-trait = "0.1"
bytes = "1"
log = "0.4"
prost = "0.11"
ractor = "0.8"
tokio = { version = "1", features = ["io-util", "macros", "net", "rt", "sync", "time"] }
