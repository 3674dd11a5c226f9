[package]
name = "tcp_bridge"
version = "0.1.0"
edition = "2021"
publish = false

[dependencies]
dotenv = "*"
log = "*"
paho-mqtt = "*"
simplelog = "*"
tokio = { version = "*", features = ["net", "rt-multi-thread", "macros"] }
