[package]
name = "backpressure"
version = "0.1.0"
edition = "2021"
publish = false

[dependencies]
crossbeam = "0.7"
actix-web = { version = "3", default-features = false }
actix-rt = "1"
ctrlc = "3"
env_logger = "0.7"
