[package]
name = "synthui"
version = "0.1.0"
edition = "2021"
publish = false

[dependencies]
clap = "2"
font-kit = "*"
libc = "*"
memmap = "0.7"
rand = "0.7"
raqote = "*"
rosc = "*"
serde = "1"
serde_derive = "1"
toml = "0.5"
