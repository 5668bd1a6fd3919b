[package]
name = "clap-vergen"
version = "0.1.0"
edition = "2021"
publish = false

[dependencies]
anyhow = "1"
clap = { version = "3.2", features = ["derive"] }
serde_json = { version = "1", features = ["preserve_order"] }
