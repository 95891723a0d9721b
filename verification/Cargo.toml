[package]
name = "shellpicker"
version = "0.1.0"
edition = "2021"
publish = false

[dependencies]
anyhow = "*"
crossterm = "*"
serde = { version = "*", features = ["derive"] }
serde_yaml = "*"
thiserror = "*"
