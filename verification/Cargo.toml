[package]
name = "electrons"
version = "0.1.0"
edition = "2021"
publish = false

[dependencies]
rand = "0.9"
fixed = "1"
cordic = "0.1"
