[package]
name = "wordle"
version = "0.1.0"
edition = "2021"

[dependencies]
unicode-segmentation = "*"
anyhow = "*"
chrono = { version = "*", features = ["serde"] }
comfy-table = "*"
dirs = "*"
figlet-rs = "*"
reqwest = { version = "*", default-features = false, features = ["blocking", "json"] }
serde = { version = "*", features = ["derive"] }
serde_json = "*"
