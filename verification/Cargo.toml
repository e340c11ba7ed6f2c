[package]
name = "playground"
version = "0.1.0"
edition = "2021"
publish = false

[dependencies]
actix-cors = "0.7"
actix-web = "4"
env_logger = "0.11"
log = "0.4"
serde = { version = "1", features = ["derive"] }
tempfile = "3"
uuid = { version = "1", features = ["v4"] }
