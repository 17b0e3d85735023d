[package]
name = "codesearch"
version = "0.1.0"
edition = "2021"
publish = false

[dependencies]
grep = "*"
ignore = "*"
serde = { version = "*", features = ["derive"] }
serde_json = "*"
