[package]
name = "gdep"
version = "0.1.0"
edition = "2021"
publish = false

[dependencies]
clap = "4"
git2 = { version = "*", default-features = false }
run_script = "*"
yaml-rust2 = "*"
