[package]
name = "cargo_semantic_release"
version = "0.1.0"
edition = "2021"
publish = false

[dependencies]
git2 = "*"
clap = { version = "*", features = ["derive"] }
clap-cargo = "*"

[dev-dependencies]
tempfile = "*"
