[package]
name = "kindlebridge"
version = "0.1.0"
edition = "2021"
publish = false

[dependencies]
base64 = "0.22"
blake3 = { version = "1", features = ["pure"] }
clap = { version = "4", features = ["derive", "env"] }
crossterm = "0.29"
getrandom = "0.2"
interprocess = "2"
serde = { version = "1", features = ["derive"] }
serde_json = "1"
walkdir = "2"
