[package]
name = "chaos_game_3d"
version = "0.1.0"
edition = "2021"
publish = false

[dependencies]
json = "0.12"
rand = "0.7"
linreg = "0.2"
