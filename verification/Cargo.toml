[package]
name = "i3_switcher"
version = "0.1.0"
edition = "2021"
publish = false

[dependencies]
i3ipc = "*"
regex = "*"
