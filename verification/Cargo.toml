[package]
name = "kestrel"
version = "0.1.0"
edition = "2021"
publish = false

[dependencies]
aho-corasick = "=1.1.5"
lru = "=0.12.5"
ahash = "=0.8.12"
uuid = { version = "=1.29.0", features = ["v4"] }
sha2 = "=0.10.9"
libc = "=0.2.191"
serde = { version = "=1.0.229", features = ["derive"] }
serde_json = "=1.0.154"
thiserror = "=1.0.69"
tokio = { version = "=1.54.1", features = ["sync", "rt", "rt-multi-thread", "macros", "time"] }
clap = { version = "=4.6.7", features = ["derive"] }
tracing = "=0.1.44"
parking_lot = "=0.12.5"
anyhow = "=1.0.104"
aya = "0.13"
