[package]
name = "shrs_core"
version = "0.1.0"
edition = "2021"
publish = false

[dependencies]
anyhow = "1"
clap = { version = "4", features = ["derive"] }
crossterm = "0.26"
dirs = "5"
shrs_utils = "*"
shrs_vi = "*"
tempfile = "3"
tokio = { version = "1", features = ["io-util", "process", "rt-multi-thread", "sync"] }
unicode-width = "0.1"
