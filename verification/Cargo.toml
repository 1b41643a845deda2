[package]
name = "gabriel2"
version = "0.1.0"
edition = "2021"
publish = false

[dependencies]
bincode = "=2.0.0-rc.3"
futures = "0.3"
log = "0.4"
tokio = { version = "1", features = ["net", "io-util", "sync", "rt", "time"] }
