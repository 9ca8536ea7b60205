[package]
name = "lc_theme"
version = "0.1.0"
edition = "2021"
publish = false

[dependencies]
mottle = "*"
tincture = "*"
