[package]
name = "playdate"
version = "0.1.0"
edition = "2021"
publish = false

[dependencies]
cstr_core = { version = "*", features = ["alloc"] }
serde = { version = "*", features = ["derive"] }
serde-json-core = "*"
