[package]
name = "gh_rs"
version = "0.1.0"
edition = "2021"
publish = false

[dependencies]
octocrab = "=0.44.1"
structopt = "=0.3.26"
