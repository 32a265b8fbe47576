[package]
name = "ble_peripheral"
version = "0.1.0"
edition = "2021"
publish = false

[dependencies]
bluer = { version = "*", features = ["bluetoothd"] }
env_logger = "*"
futures = "0.3"
image = { version = "*", default-features = false, features = ["jpeg", "png"] }
log = "0.4"
tokio = { version = "1", features = ["full"] }
uuid = "1"
