[package]
name = "roblox_project"
version = "0.1.0"
edition = "2021"
publish = false

[dependencies]
failure = "0.1"
rbx_tree = "*"
serde = { version = "1", features = ["derive"] }
serde_json = "1"
