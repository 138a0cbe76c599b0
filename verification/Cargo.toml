[package]
name = "delta_env"
version = "0.1.0"
edition = "2021"
publish = false

[dependencies]
bat = { version = "0.22", default-features = false, features = ["minimal-application"] }
