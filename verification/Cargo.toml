[package]
name = "uno"
version = "0.1.0"
edition = "2021"
publish = false

[dependencies]
rand = "0.8"
serde_json = "1"
serde = { version = "1", features = ["derive"] }
clap = "4"
