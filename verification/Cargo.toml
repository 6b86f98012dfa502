[package]
name = "ble_temp"
version = "0.1.0"
edition = "2021"
publish = false

[dependencies]
btleplug = "=0.11.8"
env_logger = { version = "=0.10.2", default-features = false }
futures = "=0.3.34"
log = "=0.4.34"
tokio = { version = "=1.53.2", default-features = false, features = ["rt-multi-thread", "time"] }
