[package]
name = "example_app"
version = "0.1.0"
edition = "2021"
publish = false

[dependencies]
anyhow = "1"
bincode = { version = "2", features = ["serde"] }
clap = { version = "4", features = ["derive"] }
config = "0.13"
log = "0.4"
serde = { version = "1", features = ["derive"] }
