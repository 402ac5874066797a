[package]
name = "drv2605"
version = "0.1.0"
edition = "2021"
publish = false

[dependencies]
bitfield = "0.13"
embedded-hal = "0.2"
