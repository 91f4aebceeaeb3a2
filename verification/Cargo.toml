[package]
name = "iso_minimap"
version = "0.1.0"
edition = "2021"
publish = false

[dependencies]
classicube-sys = "*"
log = "*"
simplelog = "*"
tracing = "*"
