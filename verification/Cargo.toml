[package]
name = "gossip"
version = "0.1.0"
edition = "2021"
publish = false

[dependencies]
dirs = "*"
egui = "0.23"
nostr-types = "*"
r2d2 = "*"
r2d2_sqlite = { version = "*", features = ["bundled"] }
serde_json = "*"
tokio = { version = "*", features = ["rt", "sync"] }
tracing = "*"
