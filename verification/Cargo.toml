[package]
name = "fibers_tasque"
version = "0.1.0"
edition = "2021"
publish = false

[dependencies]
fibers = "0.1"
futures = "0.1"
tasque = "0.1"
