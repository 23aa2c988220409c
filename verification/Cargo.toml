[package]
name = "ble_sniffer"
version = "0.1.0"
edition = "2021"
publish = false

[dependencies]
serialport = { version = "4", default-features = false }
nix = { version = "*", features = ["signal"] }
