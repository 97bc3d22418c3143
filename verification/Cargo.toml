[package]
name = "chess_view"
version = "0.1.0"
edition = "2021"
publish = false

[dependencies]
chess = "=3.2.0"
iced = { version = "=0.3.0", features = ["image"] }
