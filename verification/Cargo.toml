[package]
name = "glass"
version = "0.1.0"
edition = "2021"
publish = false

[dependencies]
chrono = "0.4"
rusb = "0.9"
glow = "0.13"
