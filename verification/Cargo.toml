[package]
name = "dbent"
version = "0.1.0"
edition = "2021"
publish = false

[dependencies]
serde = { version = "1", features = ["derive"] }
syn = "1"
quote = "1"
proc-macro2 = "1"
