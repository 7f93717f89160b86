[package]
name = "mlt"
version = "0.1.0"
edition = "2021"
publish = false

[dependencies]
bytes = "1"
bytes-varint = "*"
fastpfor = "*"
num-traits = "0.2"
serde_columnar = "*"
thiserror = "*"
zigzag = "*"
