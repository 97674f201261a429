[package]
name = "commit_composer"
version = "0.1.0"
edition = "2021"
publish = false

[dependencies]
textwrap = "*"
dialoguer = { version = "*", default-features = false }
