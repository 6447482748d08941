[package]
name = "pxe_core"
version = "0.1.0"
edition = "2021"
publish = false

[dependencies]
smoltcp = "*"
mac_address = "*"
