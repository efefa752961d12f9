[package]
name = "xtra"
version = "0.1.0"
edition = "2021"
publish = false

[dependencies]
async-std = "*"
barrage = "*"
flume = "*"
futures-timer = "*"
futures-util = "*"
log = "*"
tokio = { version = "*", features = ["rt", "sync", "time"] }
