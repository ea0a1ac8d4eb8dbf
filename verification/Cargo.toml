[package]
name = "zip"
version = "0.1.0"
edition = "2021"
publish = false

[dependencies]
crc32fast = "*"
codepage-437 = "*"
