[package]
name = "ironrdp_usb"
version = "0.1.0"
edition = "2021"
publish = false

[dependencies]
ironrdp-dvc = "=0.10.0"
ironrdp-pdu = "=0.11.0"
tokio = { version = "=1.54.1", default-features = false, features = ["sync"] }
