[package]
name = "dash7_alp"
version = "0.1.0"
edition = "2021"
publish = false
