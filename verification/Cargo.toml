[package]
name = "tui_components"
version = "0.1.0"
edition = "2021"

[dependencies]
crossterm = "0.20"
num = "0.4"
tui = { version = "0.16", default-features = false, features = ["crossterm"] }
