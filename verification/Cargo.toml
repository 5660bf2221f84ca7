[package]
name = "crunchyroll-rs"
version = "0.1.0"
edition = "2021"
publish = false

[dependencies]
futures-util = "0.3"
serde = { version = "1", features = ["derive"] }
smart-default = "0.7"
