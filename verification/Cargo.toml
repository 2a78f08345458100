[package]
name = "hurl_cli"
version = "0.1.0"
edition = "2021"
publish = false

[dependencies]
atty = "0.2"
clap = "3"
colored = "2"
glob = "0.3"
hurl_core = "1"
regex = "1"
