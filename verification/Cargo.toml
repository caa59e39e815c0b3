[package]
name = "harpoon"
version = "0.1.0"
edition = "2021"
publish = false

[dependencies]
owo-colors = "4"
serde = { version = "1", features = ["derive"] }
serde_json = "1"
zellij-tile = "0.42"
