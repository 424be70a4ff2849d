[package]
name = "ble_discovery"
version = "0.1.0"
edition = "2021"
publish = false

[dependencies]
axum = "*"
btleplug = "*"
tokio = { version = "*", features = ["rt-multi-thread", "macros", "time", "net", "sync"] }
