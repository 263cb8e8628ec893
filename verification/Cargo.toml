[package]
name = "ripmors"
version = "0.1.0"
edition = "2021"
publish = false

[dependencies]
simdutf8 = "0.1"
clap = { version = "4", features = ["derive"] }

[dev-dependencies]
rand = "0.8"
