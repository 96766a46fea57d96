[package]
name = "botchling"
version = "0.1.0"
edition = "2021"
publish = false

[dependencies]
tokio = { version = "1", features = ["rt-multi-thread", "macros", "net", "sync", "fs"] }
serde = { version = "1", features = ["derive"] }
serde_json = "1"
mongodb = "3"
futures = "0.3"
reqwest = { version = "0.12", default-features = false, features = ["json", "rustls-tls"] }
tracing = "0.1"
tracing-subscriber = "0.3"
chrono = "0.4"
dotenv = "0.15"
tokio-postgres = "0.7"
