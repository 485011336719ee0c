[package]
name = "sandbox_core"
version = "0.1.0"
edition = "2021"
publish = false

[dependencies]
base64 = "0.21"
rand = "0.8"
gcp_auth = "0.9"
tokio = { version = "1", features = ["rt-multi-thread", "macros", "time", "sync"] }
tonic = "0.9"
hyper = { version = "0.14", features = ["client", "http1", "http2", "tcp"] }
hyper-tls = "0.5"
