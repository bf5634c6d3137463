[package]
name = "fuel-proving-games-sp1"
version = "0.1.0"
edition = "2021"
publish = false

[dependencies]
alloy-sol-types = "0.8"
anyhow = "1"
clap = { version = "4", features = ["derive"] }
csv = "1"
hex = "0.4"
serde = { version = "1", features = ["derive"] }
serde_json = "1"
tracing = "0.1"
