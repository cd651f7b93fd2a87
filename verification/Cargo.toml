[package]
name = "servo"
version = "0.1.0"
edition = "2021"
publish = false

[dependencies]
app_units = "=0.7.8"
url = "=2.5.8"
ipc-channel = "=0.19.0"
parking_lot = "=0.12.5"
serde = { version = "=1.0.229", features = ["derive"] }
