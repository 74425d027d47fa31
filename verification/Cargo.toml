[package]
name = "pgfplots"
version = "0.1.0"
edition = "2021"
publish = false

[dependencies]
itertools = "*"
opener = "*"
tempfile = "*"
