[package]
name = "type_trainer"
version = "0.1.0"
edition = "2021"
publish = false

[dependencies]
anyhow = "1"
chrono = "0.4"
clap = "4"
crossterm = "0.27"
rand = "0.8"
ratatui = "0.26"
serde = "1"
serde_json = "1"
