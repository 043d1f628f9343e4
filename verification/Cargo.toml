[package]
name = "password_manager"
version = "0.1.0"
edition = "2021"
publish = false

[dependencies]
crossterm = "0.25"
dirs = "5"
serde = { version = "1", features = ["derive"] }
serde_json = "1"
termion = "1.5"
tui = { version = "0.19", features = ["termion"] }
