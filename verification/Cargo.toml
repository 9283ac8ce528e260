[package]
name = "seavan"
version = "0.1.0"
edition = "2021"
publish = false

[dependencies]
log = "0.4"
sha2 = "0.10"
tempfile = "3"
thiserror = "1"
