[package]
name = "utui"
version = "0.1.0"
edition = "2021"
publish = false

[dependencies]
rust-fuzzy-search = "*"
ratatui = "*"
crossterm = "*"
arboard = "*"
color-eyre = "*"
