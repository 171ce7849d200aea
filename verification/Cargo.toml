[package]
name = "diet_mac_and_cheese"
version = "0.1.0"
edition = "2021"
publish = false

[dependencies]
rand = "*"
