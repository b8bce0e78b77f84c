[package]
name = "snake_game"
version = "0.1.0"
edition = "2021"
publish = false

[dependencies]
rand = "=0.10.3"
termion = "=4.0.6"
ansi_term = "=0.11.0"
matrix_display = "=1.0.0"
tui = { version = "=0.19.0", default-features = false, features = ["termion"] }
