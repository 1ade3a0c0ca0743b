[package]
name = "streamdl"
version = "0.1.0"
edition = "2021"
publish = false

[dependencies]
kuchiki = "0.8"
reqwest = { version = "0.12", default-features = false, features = ["http2", "stream"] }
tokio = { version = "1", features = ["fs", "io-util", "rt-multi-thread", "macros"] }
futures = "0.3"
indicatif = "0.17"
