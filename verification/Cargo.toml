[package]
name = "chat_gateway"
version = "0.1.0"
edition = "2021"
publish = false

[dependencies]
anyhow = "1"
base64 = "0.22"
bytes = "1"
chrono = "0.4"
env_logger = "0.11"
futures-util = "0.3"
http = "1"
http-body-util = "0.1"
hyper = { version = "1", features = ["server", "http1", "http2"] }
hyper-util = { version = "0.1", features = ["server", "server-auto", "tokio", "service"] }
log = "0.4"
rand = "0.8"
reqwest = { version = "0.12", default-features = false, features = ["json", "socks", "rustls-tls"] }
reqwest-eventsource = "0.6"
serde_json = "1"
sha3 = "0.10"
tokio = { version = "1", features = ["rt-multi-thread", "macros", "net", "signal", "sync", "time"] }
tokio-graceful = "0.2"
tokio-stream = "0.1"
uuid = { version = "1", features = ["v4"] }
