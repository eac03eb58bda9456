[package]
name = "natbreak"
version = "0.1.0"
edition = "2021"
publish = false

[dependencies]
serde_yaml = "0.9"
dirs-next = "2"
url = "2"
crossbeam-channel = "0.5"

[dev-dependencies]
borsh = "1"
