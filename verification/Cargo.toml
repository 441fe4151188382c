[package]
name = "chatpeer"
version = "0.1.0"
edition = "2021"
publish = false

[dependencies]
anyhow = "1"
async-trait = "0.1"
crypto_box = "0.9"
dirs = "6"
futures = "0.3"
libp2p = { version = "0.53", features = ["tokio", "tcp", "noise", "yamux", "mdns", "kad", "gossipsub", "request-response", "identify", "ping", "macros"] }
rand = "0.8"
rusqlite = "0.31"
serde = { version = "1", features = ["derive"] }
serde_json = "1"
tokio = { version = "1", features = ["rt-multi-thread", "macros", "sync", "time"] }
toml = "0.8"
tracing = "0.1"
tracing-subscriber = { version = "0.3", default-features = false, features = ["std", "fmt", "env-filter"] }
