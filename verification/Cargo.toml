[package]
name = "chess_board_core"
version = "0.1.0"
edition = "2021"
publish = false

[dependencies]
rust_fish_chess_engine = "*"
