[package]
name = "pipeliner"
version = "1.0.0"
edition = "2021"
publish = false

[dependencies]
crossbeam-channel = "0.5"
