[package]
name = "carrot_client"
version = "0.1.0"
edition = "2021"
publish = false

[dependencies]
anyhow = "1"
async-trait = "0.1"
tokio = { version = "1", default-features = false, features = ["io-util", "net", "rt", "time"] }
