[package]
name = "rrss-cli-rs"
version = "0.1.0"
edition = "2021"
publish = false

[dependencies]
anyhow = "1"
clap = { version = "4", features = ["derive"] }
color-thief = "*"
image = "*"
material-colors = { version = "*", features = ["image"] }
palette = "*"
quantette = "*"
serde = { version = "1", features = ["derive"] }
serde_json = "1"
toml = "*"
walkdir = "2"
