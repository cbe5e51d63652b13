[package]
name = "agentfs_mount"
version = "0.1.0"
edition = "2021"
publish = false

[dependencies]
agentfs-sdk = "=0.5.3"
anyhow = "=1.0.104"
libc = "=0.2.191"
tokio = { version = "=1.54.1", features = ["rt-multi-thread"] }
turso = "0.4"
