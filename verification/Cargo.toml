[package]
name = "can_aerospace_lite"
version = "0.1.0"
edition = "2021"

[dependencies]
heapless = "0.8"
bxcan = "*"
