[package]
name = "cs2kz"
version = "0.1.0"
edition = "2021"
publish = false

[dependencies]
serde = { version = "1", features = ["derive"] }
serde_json = "1"
http = "1"
mime = "0.3"
time = "0.3"
