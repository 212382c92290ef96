[package]
name = "ansi_support"
version = "0.1.0"
edition = "2021"
publish = false

[dependencies]
crossterm_winapi = "*"
