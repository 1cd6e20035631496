[package]
name = "mptree"
version = "0.1.0"
edition = "2021"
publish = false

[dependencies]
bitstream-io = "=4.10.0"
byteorder = "=1.5.0"
