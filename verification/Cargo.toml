[package]
name = "discord_source"
version = "0.1.0"
edition = "2021"
publish = false

[dependencies]
anyhow = "1"
confy = "0.5"
directories = "5"
discord-sdk = "0.3"
futures-util = "0.3"
glob = "0.3"
md5 = "0.7"
open = "5"
parking_lot = "0.12"
reqwest = { version = "0.11", default-features = false, features = ["rustls-tls"] }
serde = { version = "1", features = ["derive"] }
serde_json = "1"
shellexpand = "3"
sysinfo = "0.29"
tokio = { version = "1", features = ["rt-multi-thread", "macros", "net", "sync", "fs", "io-util", "process"] }
tokio-tungstenite = "0.20"
tracing = "0.1"
tracing-log = "0.1"
tracing-subscriber = "0.3"
