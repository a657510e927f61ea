[package]
name = "cbt"
version = "0.1.0"
edition = "2021"
publish = false

[dependencies]
clap = { version = "*", features = ["derive"] }
convert_case = "*"
quote = "*"
syn = { version = "*", features = ["full"] }
