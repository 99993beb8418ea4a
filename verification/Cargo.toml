[package]
name = "telera"
version = "0.1.0"
edition = "2021"
publish = false

[dependencies]
markdown = "1.0.0"
symbol_table = { version = "0.5.0", features = ["global"] }
