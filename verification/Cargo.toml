[package]
name = "cloud"
version = "0.1.0"
edition = "2021"
publish = false

[dependencies]
anyhow = "1"
clap = { version = "4", features = ["derive"] }
nanoid = "0.4"
prost = "0.13"
tokio = { version = "1", features = ["macros", "rt-multi-thread", "process", "sync"] }
tokio-stream = "0.1"
tonic = "0.12"
tonic-build = "0.12"
