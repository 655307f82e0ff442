[package]
name = "to_dos"
version = "0.1.0"
edition = "2021"
publish = false

[dependencies]
reactive-rs = "*"
uuid = { version = "*", features = ["v4"] }
egui = { version = "*", default-features = false }
