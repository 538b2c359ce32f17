[package]
name = "dlm"
version = "0.1.0"
edition = "2021"
publish = false

[dependencies]
chrono = "0.4"
clap = { version = "4", features = ["cargo"] }
futures-util = "0.3"
indicatif = "0.17"
rand = "0.9"
reqwest = { version = "0.12", default-features = false, features = ["rustls-tls"] }
thiserror = "2"
tokio = { version = "1", features = ["full"] }
tokio-retry = "0.3"
tokio-stream = { version = "0.1", features = ["io-util"] }
