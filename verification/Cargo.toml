[package]
name = "nile_security"
version = "0.1.0"
edition = "2021"
publish = false
