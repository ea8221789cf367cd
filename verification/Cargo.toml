[package]
name = "indicator_light"
version = "0.1.0"
edition = "2021"
publish = false

[dependencies]
rusb = "*"
