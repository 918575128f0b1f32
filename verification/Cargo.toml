[package]
name = "liftcheck"
version = "0.1.0"
edition = "2021"
publish = false

[dependencies]
miniscript = "10"
hex = "0.4"
