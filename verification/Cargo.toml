[package]
name = "wifi_bridge"
version = "0.1.0"
edition = "2021"
publish = false

[dependencies]
critical-section = { version = "=1.2.0", features = ["std"] }
smoltcp = "=0.7.5"
log = "=0.4.34"
embassy-net-driver = "=0.2.0"
