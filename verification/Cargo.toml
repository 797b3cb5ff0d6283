[package]
name = "voting"
version = "0.1.0"
edition = "2021"

[dependencies]
anchor-lang = "=0.30.1"
