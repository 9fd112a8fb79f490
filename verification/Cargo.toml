[package]
name = "khan_academy_extractor"
version = "0.1.0"
edition = "2021"
publish = false

[dependencies]
base64 = "*"
clap = { version = "*", features = ["derive"] }
csv = "*"
serde_json = "*"
thiserror = "*"
