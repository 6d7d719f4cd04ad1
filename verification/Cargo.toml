[package]
name = "invelion"
version = "0.1.0"
edition = "2021"

[dependencies]
bitreader = "0.3"
failure = "0.1"
log = "0.4"
serial = "0.4"
