[package]
name = "armature_grpc"
version = "0.1.0"
edition = "2021"
publish = false

[dependencies]
async-trait = "0.1"
bytes = "1"
flate2 = "1"
http = "1"
http-body = "1"
http-body-util = "0.1"
rustls = { version = "0.23", default-features = false, features = ["ring", "std"] }
thiserror = "2"
tokio = { version = "1", features = ["rt", "rt-multi-thread", "sync", "time", "net", "macros"] }
tonic = { version = "0.14", features = ["tls-ring"] }
tonic-health = "0.14"
tonic-reflection = "0.14"
tower = "0.5"
tracing = "0.1"
zstd = "0.13"
