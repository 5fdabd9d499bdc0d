[package]
name = "maker"
version = "0.1.0"
edition = "2021"
publish = false

[dependencies]
glob = "*"
clap = "*"
ansi_term = "*"
