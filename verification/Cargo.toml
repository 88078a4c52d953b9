[package]
name = "lumicontrol"
version = "0.1.0"
edition = "2021"
publish = false

[dependencies]
serde = { version = "1", features = ["derive"] }
serde_json = "1"
url = "2"
chrono = "0.4"
chrono-tz = "0.10"
serialport = { version = "4", default-features = false }
