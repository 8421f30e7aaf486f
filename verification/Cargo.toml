[package]
name = "opj"
version = "0.1.0"
edition = "2021"
publish = false

[dependencies]
anyhow = "1"
chrono = "0.4"
clap = { version = "4", features = ["derive"] }
colored = "*"
dialoguer = "*"
dirs = "*"
serde = { version = "1", features = ["derive"] }
serde_json = "1"
serde_yaml = "0.9"
tabled = "*"
tokio = { version = "1", features = ["rt", "macros", "fs"] }
uuid = { version = "1", features = ["v4"] }
walkdir = "2"
