[package]
name = "grouse_core"
version = "0.1.0"
edition = "2021"
publish = false

[dependencies]
serde = { version = "1", features = ["derive"] }
serde_json = "1"
parking_lot = "*"
tokio = { version = "1", features = ["rt-multi-thread", "sync", "time", "macros"] }
futures = "*"
agent-client-protocol = "*"
async-tungstenite = { version = "*", features = ["tokio-runtime", "tokio-rustls-webpki-roots"] }
rustls = { version = "*", default-features = false, features = ["ring", "std", "tls12"] }
tokio-rustls = { version = "*", default-features = false, features = ["ring"] }
webpki-roots = "*"
uniffi = "*"
