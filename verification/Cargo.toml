[package]
name = "pal_passes"
version = "0.1.0"
edition = "2021"
publish = false

[dependencies]
num-bigint = "0.4"
pretty = "0.12"
