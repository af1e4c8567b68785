[package]
name = "town_explorer"
version = "0.1.0"
edition = "2021"
publish = false

[dependencies]
petgraph = "*"
rand = "*"
serde = { version = "*", features = ["derive"] }
serde_json = "*"
crossterm = "*"
ratatui = "*"
color-eyre = "*"
env_logger = "*"
log = "*"
