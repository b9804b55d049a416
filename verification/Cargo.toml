[package]
name = "aucpl"
version = "0.1.0"
edition = "2021"
publish = false

[dependencies]
anyhow = "1"
clap = "4"
config = { version = "0.14", default-features = false, features = ["toml"] }
normpath = "1"
regex = "1"
serde = { version = "1", features = ["derive"] }
serde_json = "1"
subprocess = "0.2"
uuid = { version = "1", features = ["v4"] }
walkdir = "2"
