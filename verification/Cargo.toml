[package]
name = "hal_bridge"
version = "0.1.0"
edition = "2021"
publish = false

[dependencies]
embedded-hal = "1"
embedded-io = "0.6"
log = "0.4"
lsm6ds3tr = "*"
