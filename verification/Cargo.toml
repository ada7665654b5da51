[package]
name = "usb_capture"
version = "0.1.0"
edition = "2021"
publish = false

[dependencies]
once_cell = "*"
rusb = "*"

[dev-dependencies]
serde_json = "*"
