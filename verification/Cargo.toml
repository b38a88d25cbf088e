[package]
name = "sahakari"
version = "0.1.0"
edition = "2021"
publish = false

[dependencies]
urlencoding = "2"
chrono = "0.4"
clap = { version = "4", features = ["derive"] }
colored = "2"
dirs = "5"
inquire = "0.7"
serde = { version = "1", features = ["derive"] }
serde_json = "1"
sysinfo = "0.29"
walkdir = "2"
