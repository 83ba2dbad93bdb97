[package]
name = "logcore"
version = "0.1.0"
edition = "2021"
publish = false

[dependencies]
owo-colors = "*"

[dev-dependencies]
serde_json = "*"
