[package]
name = "baitroute_rs"
version = "0.1.0"
edition = "2021"
publish = false

[dependencies]
serde = { version = "1", features = ["derive"] }
serde_yml = "*"
clap = { version = "4", features = ["derive"] }
