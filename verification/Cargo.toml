[package]
name = "iota_view"
version = "0.1.0"
edition = "2021"
publish = false

[dependencies]
unicode-width = "0.1"
rustbox = "0.11"
clipboard = "0.5"
