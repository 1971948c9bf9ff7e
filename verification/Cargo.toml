[package]
name = "mw_bridge"
version = "0.1.0"
edition = "2021"
publish = false

[dependencies]
serialport = { version = "=4.10.1", default-features = false }
chrono = "=0.4.45"
thiserror = "=2.0.21"
