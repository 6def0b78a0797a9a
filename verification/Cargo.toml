[package]
name = "resource"
version = "0.1.0"
edition = "2021"
publish = false

[dependencies]
dashmap = { version = "6", features = ["rayon"] }
rayon = "1"
once_cell = "1"
lazy_static = "1"
uuid = { version = "1", features = ["v4"] }
