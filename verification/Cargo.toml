[package]
name = "prettytable"
version = "0.1.0"
edition = "2021"
publish = false

[dependencies]
unicode-width = "0.1"
term = "0.7"
atty = "0.2"
