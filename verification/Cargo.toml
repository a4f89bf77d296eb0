[package]
name = "tile_world"
version = "0.1.0"
edition = "2021"
publish = false

[dependencies]
colored = "3"
rand = "0.9"
crossterm = "*"
kira = "0.10"
clearscreen = "*"
