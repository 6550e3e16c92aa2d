[package]
name = "env_perm"
version = "0.1.0"
edition = "2021"

[dependencies]
dirs = "*"
