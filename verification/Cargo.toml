[package]
name = "utransport_socket"
version = "0.1.0"
edition = "2021"
publish = false

[dependencies]
up-rust = "*"
protobuf = "3"
base64 = "*"
bytes = "1"
serde_json = "*"
