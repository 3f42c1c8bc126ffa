[package]
name = "nt_progress"
version = "0.1.0"
edition = "2021"
publish = false

[dependencies]
unicode-segmentation = "1"
crossterm = "*"
clap = { version = "4", features = ["derive"] }
