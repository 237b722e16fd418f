[package]
name = "cargo_completions"
version = "0.1.0"
edition = "2021"
publish = false

[dependencies]
shell_completion = "*"
