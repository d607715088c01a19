[package]
name = "har_sdv"
version = "0.1.0"
edition = "2021"
publish = false

[dependencies]
log = "0.4"
tokio = { version = "1", features = ["rt", "rt-multi-thread", "macros", "sync", "time"] }
tokio-util = "0.7"
futures = "0.3"
futures-util = "0.3"
protobuf = "3"
grpcio = { version = "0.13", default-features = false, features = ["protobufv3-codec"] }
async-trait = "0.1"
anyhow = "1"
thiserror = "1"
itertools = "*"
tracing = "0.1"
