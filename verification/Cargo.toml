[package]
name = "futures_native"
version = "0.1.0"
edition = "2021"
publish = false

[dependencies]
async-task = "4"
bytes = "1"
futures = "0.3"
futures-util = "0.3"
http = "1"
http-body = "1"
http-body-util = "0.1"
libc = "0.2"
pin-project = "1"
serde = { version = "1", features = ["derive"] }
serde_json = "1"
tower = "0.5"
