[package]
name = "flakeid"
version = "0.1.0"
edition = "2021"
publish = false

[dependencies]
data-encoding = "*"
mac_address = "*"
serde = "*"
