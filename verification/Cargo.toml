[package]
name = "sol_lint"
version = "0.1.0"
edition = "2021"
publish = false

[dependencies]
solar-compiler = { version = "=0.2.0", default-features = false }
