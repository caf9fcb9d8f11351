[package]
name = "lrs"
version = "0.1.0"
edition = "2021"
publish = false

[dependencies]
unicode-width = "*"
terminal_size = "*"
chrono = "0.4"
ctrlc = "3"
clap = { version = "4", features = ["derive"] }
