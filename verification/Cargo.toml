[package]
name = "offline_chess_puzzles"
version = "0.1.0"
edition = "2021"
publish = false

[dependencies]
chess = "3.2"
rand = "0.9"
