[package]
name = "yams"
version = "0.1.0"
edition = "2021"
publish = false

[dependencies]
yaml-rust = "*"
clap = "*"
hyper = "0.11"
futures = "0.1"
