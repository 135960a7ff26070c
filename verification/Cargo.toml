[package]
name = "capora_kernel"
version = "0.1.0"
edition = "2021"
publish = false

[dependencies]
clap = "=4.5.61"
log = "=0.4.34"
