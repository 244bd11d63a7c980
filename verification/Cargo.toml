[package]
name = "mneb"
version = "0.1.0"
edition = "2021"
publish = false

[dependencies]
anyhow = "*"
clap = { version = "*", features = ["derive"] }
glob = "*"
macroquad = "*"
serde = { version = "*", features = ["derive"] }
serde_json = "*"
