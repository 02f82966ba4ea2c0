[package]
name = "flappy"
version = "0.1.0"
edition = "2021"

[dependencies]
bracket-lib = "0.8"
