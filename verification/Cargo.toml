[package]
name = "embassy_dlyb"
version = "0.1.0"
edition = "2021"
publish = false

[dependencies]
aligned = "0.4"
as-slice = "0.2"
