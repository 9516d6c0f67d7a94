[package]
name = "encue"
version = "0.1.0"
edition = "2021"
publish = false

[dependencies]
rand = "0.8"
rodio = "0.17"
lofty = "0.18"
serde = { version = "1", features = ["derive"] }
serde_yaml = "0.9"
serde_with = "3"
thiserror = "1"
log = "0.4"
time = { version = "0.3", features = ["macros", "formatting", "local-offset"] }
crossterm = "0.27"
ratatui = "0.24"
