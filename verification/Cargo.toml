[package]
name = "arrayvec_scenarios"
version = "0.1.0"
edition = "2021"
publish = false

[dependencies]
arrayvec = { version = "=0.5.2", features = ["array-sizes-33-128", "array-sizes-129-255"] }
