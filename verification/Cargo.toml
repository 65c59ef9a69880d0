[package]
name = "bouncing_balls"
version = "0.1.0"
edition = "2021"
publish = false

[dependencies]
rand = "=0.8.8"
clap = "=2.34.0"
