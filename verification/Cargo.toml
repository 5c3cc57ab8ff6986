[package]
name = "mpc_tui_rs"
version = "0.1.0"
edition = "2021"

[dependencies]
ncurses = "=5.99.0"
