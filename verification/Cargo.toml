[package]
name = "greptui"
version = "0.1.0"
edition = "2021"
publish = false

[dependencies]
grep = "*"
ratatui = "*"
crossterm = "*"
nix = { version = "*", features = ["signal", "process"] }
dark-light = "2"
