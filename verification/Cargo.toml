[package]
name = "krist_miner"
version = "0.1.0"
edition = "2021"
publish = false

[dependencies]
dynamic_ocl = "=0.1.0-alpha.1"
structopt = "*"
thiserror = "*"
