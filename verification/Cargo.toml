[package]
name = "core_bridge"
version = "0.1.0"
edition = "2021"
publish = false

[dependencies]
serde_json = "1"
interoptopus = "0.14"
