[package]
name = "libbtrfs"
version = "0.1.0"
edition = "2021"
publish = false

[dependencies]
crc32c = "0.6"
uuid = "1"
libc = "0.2"
rtrb = "0.3"
