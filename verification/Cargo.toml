[package]
name = "serial_tester"
version = "0.1.0"
edition = "2021"
publish = false

[dependencies]
rand = "*"
serial = "*"
ansi_term = "*"
clap = "*"
