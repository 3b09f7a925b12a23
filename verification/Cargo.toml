[package]
name = "mem_isolate"
version = "0.1.6"
edition = "2021"
publish = false

[dependencies]
libc = "0.2"
bincode = "1"
serde = { version = "1", features = ["derive"] }
thiserror = "2"
tokio = { version = "1", features = ["rt", "rt-multi-thread", "fs", "sync", "io-util"] }
