[package]
name = "temp_cleaner"
version = "0.1.0"
edition = "2021"
publish = false

[dependencies]
anyhow = "*"
clap = "*"
humantime = "*"
log = "*"
simplelog = "*"
