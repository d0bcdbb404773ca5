[package]
name = "pb_print"
version = "0.1.0"
edition = "2021"
publish = false

[dependencies]
bytes = "1"

[dev-dependencies]
protobuf-support = "3"
