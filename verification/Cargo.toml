[package]
name = "sol-slot-leader"
version = "0.1.0"
edition = "2021"
publish = false

[dependencies]
dashmap = "6.1.0"
tokio = { version = "1", features = ["rt-multi-thread", "macros", "time", "sync"] }
anyhow = "1"
log = "0.4"
sea-orm = { version = "1.1.20", default-features = false, features = ["sqlx-mysql", "runtime-tokio-rustls"] }
solana-commitment-config = "3.1.1"
