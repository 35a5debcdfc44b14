[package]
name = "mempool_admission"
version = "0.1.0"
edition = "2021"
publish = false

[dependencies]
anyhow = "1"
async-trait = "0.1"
blockifier = "=0.8.0"
thiserror = "1"
tokio = { version = "1", features = ["rt"] }
tracing = "0.1"
