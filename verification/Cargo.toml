[package]
name = "rp_watch"
version = "0.1.0"
edition = "2021"
publish = false

[dependencies]
regex = "1"
kuchiki = "0.8"
reqwest = { version = "0.11", default-features = false, features = ["rustls-tls"] }
tokio = { version = "1", features = ["full"] }
futures = "0.3"
serde = "1"
