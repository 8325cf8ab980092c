[package]
name = "multi_logging"
version = "0.1.0"
edition = "2021"
publish = false

[dependencies]
crossbeam = "0.8"
log = "0.4"
time = { version = "0.3", features = ["local-offset", "formatting"] }
