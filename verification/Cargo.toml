[package]
name = "ginepro"
version = "0.1.0"
edition = "2021"
publish = false

[dependencies]
anyhow = "1"
async-trait = "0.1"
hickory-resolver = "0.25"
http = "1"
tokio = { version = "1", features = ["rt", "time", "sync"] }
tonic = { version = "0.13", features = ["tls-ring"] }
tower = "0.5"
tracing = "0.1"
