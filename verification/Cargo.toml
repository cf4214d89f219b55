[package]
name = "tle_retriever"
version = "0.1.0"
edition = "2021"
publish = false

[dependencies]
serde_json = "1"
chrono = "0.4"
serde = { version = "1", features = ["derive"] }
ureq = "2"
config = "0.14"
clap = "4"
log = "0.4"
log4rs = "1"
