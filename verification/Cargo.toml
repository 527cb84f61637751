[package]
name = "oatool"
version = "0.7.0"
edition = "2021"
publish = false

[dependencies]
Inflector = "=0.11.4"
regex = "=1.13.1"
clap = "=2.34.0"
error-chain = "=0.12.4"
openapi = "=0.1.5"
serde = { version = "=1.0.229", features = ["derive"] }
serde_json = "=1.0.154"
serde_yaml = "=0.8.26"
yaml-merge-keys = "=0.5.1"
yaml-rust = "=0.4.5"
