[package]
name = "limedb"
version = "0.1.0"
edition = "2021"
publish = false

[dependencies]
aol = "*"
skl = "*"
parking_lot = "*"
