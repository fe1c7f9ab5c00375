[package]
name = "sunsaver"
version = "0.1.0"
edition = "2021"
publish = false

[dependencies]
actix-files = "*"
actix-web = "*"
clap = "*"
env_logger = "*"
libmodbus-rs = "*"
log = "*"
serde = { version = "*", features = ["derive"] }
serde_json = "*"
