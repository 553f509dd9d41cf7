[package]
name = "async_read_window"
version = "0.1.0"
edition = "2021"
publish = false

[dependencies]
futures-lite = "2"
smol = "2"
