[package]
name = "rem"
version = "0.1.0"
edition = "2021"
publish = false

[dependencies]
chrono = "0.4"
clap = { version = "4", features = ["derive"] }
home = "0.5"
serde = { version = "1", features = ["derive"] }
serde_json = "1"
