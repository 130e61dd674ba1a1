[package]
name = "pubsub_discovery"
version = "0.1.0"
edition = "2021"
publish = false

[dependencies]
libp2p = { version = "*", default-features = false, features = ["gossipsub", "tokio", "tcp", "noise", "yamux", "macros"] }
tokio = { version = "*", default-features = false, features = ["rt-multi-thread", "sync", "time", "macros", "signal"] }
