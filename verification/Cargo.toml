[package]
name = "hypermon"
version = "0.1.0"
edition = "2021"
publish = false

[dependencies]
actix-web = { version = "4", default-features = false, features = ["macros"] }
anyhow = "1"
clap = "4"
prettytable-rs = { version = "0.10", default-features = false }
prometheus = { version = "0.13", default-features = false }
reqwest = { version = "0.11", default-features = false, features = ["json", "rustls-tls"] }
serde = { version = "1", features = ["derive"] }
thiserror = "1"
tokio = { version = "1", features = ["rt-multi-thread", "macros"] }
tracing = "0.1"
tracing-subscriber = "0.3"
web3 = { version = "0.19", default-features = false, features = ["http-rustls-tls"] }
