[package]
name = "sudoku_backend"
version = "0.1.0"
edition = "2021"
publish = false

[dependencies]
chrono = "*"
diesel = { version = "*", features = ["sqlite", "r2d2"] }
libsqlite3-sys = { version = "*", features = ["bundled"] }
rocket = "*"
toml = "*"
