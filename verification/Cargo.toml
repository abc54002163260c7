[package]
name = "scala_bootstrap"
version = "0.1.0"
edition = "2021"
publish = false

[dependencies]
anyhow = "1"
github_release_check = "*"
lapce-plugin = "*"
serde = { version = "1", features = ["derive"] }
serde_json = "1"
url = "2"
