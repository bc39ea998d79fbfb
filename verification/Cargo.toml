[package]
name = "navipod"
version = "0.1.0"
edition = "2021"
publish = false

[dependencies]
chrono = "0.4"
unicode-width = "*"
ratatui = "*"
crossterm = "*"
arboard = "*"
x509-parser = "*"
time = "*"
tracing = "*"
