[package]
name = "oito"
version = "0.1.0"
edition = "2021"
publish = false

[dependencies]
rand = "=0.8.5"
structopt = "0.3"
thiserror = "1"
