[package]
name = "pwsh_setup"
version = "0.1.0"
edition = "2021"
publish = false

[dependencies]
anyhow = "1"
async-trait = "0.1"
colored = "2"
dialoguer = "0.11"
futures-util = "0.3"
reqwest = { version = "0.12", default-features = false, features = ["stream", "rustls-tls"] }
serde_json = "1"
tokio = { version = "1", features = ["full"] }
typed-builder = "0.18"
