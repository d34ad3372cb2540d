[package]
name = "coremidi"
version = "0.6.0"
edition = "2021"
publish = false

[dependencies]
doom-fish-utils = "*"
libc = "0.2"
serde = { version = "1", features = ["derive"] }
serde_json = "1"
