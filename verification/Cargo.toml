[package]
name = "msp_codec"
version = "0.1.0"
edition = "2021"
publish = false

[dependencies]
anyhow = "*"
crc-any = "*"
packed_struct = "*"
serialport = { version = "*", default-features = false }
