[package]
name = "own_or_borrow"
version = "0.1.0"
edition = "2021"
publish = false

[dependencies]
defmt = "*"
