[package]
name = "pwr_ext"
version = "0.1.0"
edition = "2021"
publish = false

[dependencies]
serde = { version = "1", features = ["derive"] }
serde_json = "1"
serenity = "0.12"
syn = { version = "2", features = ["full"] }
quote = "1"
proc-macro2 = "1"
