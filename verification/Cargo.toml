[package]
name = "close_to_light"
version = "0.1.0"
edition = "2021"
publish = false

[dependencies]
generational-arena = "0.2"
clap = { version = "4", features = ["derive"] }
serde = { version = "1", features = ["derive"] }
serde_json = "1"
anyhow = "1"
log = "0.4"
enum-iterator = "2"
