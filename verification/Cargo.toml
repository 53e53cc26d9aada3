[package]
name = "tictactoe"
version = "0.1.0"
edition = "2021"
publish = false

[dependencies]
rand = "0.4"
termion = "1.5"
clap = "2"
ctrlc = "3"
