[package]
name = "picker"
version = "0.1.0"
edition = "2021"
publish = false

[dependencies]
matchr = "*"
ratatui = "*"
color-eyre = "*"
