[package]
name = "gitgate"
version = "0.1.0"
edition = "2021"
publish = false

[dependencies]
semver = "1"
structopt = "0.3"
