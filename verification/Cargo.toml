[package]
name = "shketch"
version = "0.1.0"
edition = "2021"
publish = false

[dependencies]
clap = "2"
crossterm = "0.17"
termion = "1.5"
