[package]
name = "ctxcell"
version = "0.1.0"
edition = "2021"
publish = false

[dependencies]
bare-metal = "1"
