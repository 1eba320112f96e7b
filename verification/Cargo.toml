[package]
name = "ddns"
version = "0.1.0"
edition = "2021"
publish = false

[dependencies]
anyhow = "*"
clap = { version = "*", features = ["derive"] }
cloudflare = "*"
log = "*"
reqwest = "*"
serde = { version = "*", features = ["derive"] }
tokio = { version = "*", features = ["full"] }
