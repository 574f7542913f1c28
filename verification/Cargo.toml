[package]
name = "trabajo_final"
version = "0.1.0"
edition = "2021"
publish = false

[dependencies]
chrono = "=0.4.45"
hex = "=0.4.3"
ink = "=5.1.1"
