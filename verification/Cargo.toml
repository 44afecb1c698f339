[package]
name = "modeled_types"
version = "0.1.0"
edition = "2021"
publish = false

[dependencies]
serde = "1"
url = "2"
