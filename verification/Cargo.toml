[package]
name = "async-trait-ext"
version = "0.2.0"
edition = "2021"
publish = false

[dependencies]
heck = "0.3"
macro-compose = "*"
macro-input = "*"
proc-macro2 = "1"
quote = "1"
syn = { version = "1", features = ["full", "visit-mut", "extra-traits"] }
