[package]
name = "rfc_merge_pr"
version = "0.1.0"
edition = "2021"
publish = false

[dependencies]
dotenv = "=0.15.0"
octocrab = "=0.41.2"
reqwest = { version = "=0.12.28", default-features = false, features = ["rustls-tls"] }
tokio = { version = "=1.53.2", features = ["rt", "macros"] }
tracing-subscriber = "=0.3.23"
