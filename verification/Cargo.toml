[package]
name = "nickel_redis"
version = "0.1.0"
edition = "2021"
publish = false

[dependencies]
nickel = "*"
plugin = "*"
r2d2 = "*"
r2d2_redis = "*"
typemap = "*"
