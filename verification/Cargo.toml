[package]
name = "zobrist_gen"
version = "0.1.0"
edition = "2021"
publish = false

[dependencies]
rand = "0.8"
docopt = "1.1"
