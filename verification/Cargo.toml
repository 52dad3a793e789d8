[package]
name = "app_monitor"
version = "0.1.0"
edition = "2021"
publish = false

[dependencies]
rusqlite = { version = "*", features = ["bundled"] }
chrono = "*"
ctrlc = "*"
dirs = "*"
core-foundation = "*"
core-graphics = "*"
