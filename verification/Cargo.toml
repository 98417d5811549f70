[package]
name = "fieldbus_drive"
version = "0.1.0"
edition = "2021"
publish = false

[dependencies]
anyhow = "1"
ctrlc = "3"
env_logger = "*"
log = "0.4"
parking_lot = "0.12"
soem = "*"
