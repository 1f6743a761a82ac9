[package]
name = "barcode_read"
version = "0.1.0"
edition = "2021"
publish = false

[dependencies]
rxing = "*"
