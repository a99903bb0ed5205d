[package]
name = "kmsdrm"
version = "0.1.0"
edition = "2021"
publish = false

[dependencies]
drm = "=0.15.0"
parking_lot = "=0.12.5"
