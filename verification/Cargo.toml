[package]
name = "node_core"
version = "0.1.0"
edition = "2021"
publish = false

[dependencies]
anyhow = "=1.0.104"
async-trait = "=0.1.92"
once_cell = "=1.21.4"
tokio = { version = "=1.54.1", features = ["rt-multi-thread", "sync", "macros"] }
tracing = "=0.1.44"
zksync_concurrency = "=0.1.1"
zksync_consensus_roles = "=0.1.1"
