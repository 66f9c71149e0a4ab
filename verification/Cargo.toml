[package]
name = "pcr_client"
version = "0.1.0"
edition = "2021"
publish = false

[dependencies]
async-trait = "0.1"
base64 = "0.22"
bytes = "1"
http = "1"
http-body-util = "0.1"
hyper = "1"
hyper-rustls = { version = "0.27", default-features = false, features = ["http1", "http2", "ring", "logging", "tls12"] }
hyper-util = { version = "0.1", features = ["client", "client-legacy", "http1", "http2", "tokio"] }
rcgen = "0.14"
ring = "0.17"
rustls = { version = "0.23", default-features = false, features = ["ring", "std", "logging", "tls12"] }
rustls-pemfile = "2"
serde = { version = "1", features = ["derive"] }
serde_json = "1"
tokio = { version = "1", features = ["fs", "time", "rt"] }
tracing = "0.1"

[dev-dependencies]
x509-parser = { version = "0.17", features = ["verify"] }
