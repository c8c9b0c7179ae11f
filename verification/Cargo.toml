[package]
name = "sudoku"
version = "0.1.0"
edition = "2021"
publish = false

[dependencies]
crossterm = "=0.20.0"
tui = { version = "=0.16.0", default-features = false, features = ["crossterm"] }
