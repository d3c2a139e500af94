[package]
name = "stem_core"
version = "0.1.0"
edition = "2021"
publish = false

[dependencies]
num = "*"
planar_geo = "*"
stem_slot = "*"
stem_magnet = "*"
