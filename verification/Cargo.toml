[package]
name = "node_runtime"
version = "0.1.0"
edition = "2021"
publish = false

[dependencies]
semver = "1"
anyhow = "1"
async-compression = { version = "0.4", features = ["gzip", "futures-io"] }
async-tar = "*"
async-trait = "0.1"
futures = "0.3"
serde = { version = "1", features = ["derive"] }
serde_json = "1"
smol = "*"
