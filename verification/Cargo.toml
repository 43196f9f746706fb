[package]
name = "conda_lockfile"
version = "0.1.0"
edition = "2021"
publish = false

[dependencies]
sha1 = "0.6"
yaml-rust = "0.4"
clap = "2"
glob = "0.3"
log = "0.4"
simplelog = "*"
tempfile = "3"
