[package]
name = "automerge_handles"
version = "0.1.0"
edition = "2021"
publish = false

[dependencies]
automerge = "*"
serde_json = "*"
