[package]
name = "music_bot"
version = "0.1.0"
edition = "2021"
publish = false

[dependencies]
regex = "1"
md5 = "0.7"
serde = { version = "1", features = ["derive"] }
serde-xml-rs = "0.6"
reqwest = { version = "0.11", default-features = false, features = ["json", "rustls-tls"] }
tokio = { version = "1", features = ["macros", "rt-multi-thread", "process"] }
serenity = { version = "0.11", default-features = false, features = ["builder", "cache", "client", "gateway", "model", "http", "rustls_backend", "utils"] }
songbird = "0.3"
