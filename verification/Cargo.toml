[package]
name = "aeko_programs"
version = "0.1.0"
edition = "2021"
publish = false

[dev-dependencies]
borsh = "=1.8.1"
