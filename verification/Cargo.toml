[package]
name = "yall"
version = "0.1.0"
edition = "2021"
publish = false

[dependencies]
log = { version = "=0.4.34", features = ["std"] }
termcolor = "=1.4.1"
is-terminal = "=0.4.17"
