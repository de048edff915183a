[package]
name = "drag_normal"
version = "0.1.0"
edition = "2021"
publish = false

[dependencies]
iced_native = "0.3"
