[package]
name = "composite_derive"
version = "0.1.0"
edition = "2021"
publish = false

[dependencies]
darling = "=0.20.11"
syn = { version = "=2.0.119", features = ["full", "extra-traits"] }
quote = "=1.0.47"
proc-macro2 = "=1.0.107"

[dev-dependencies]
serde_json = "1"
