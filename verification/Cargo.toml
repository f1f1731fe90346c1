[package]
name = "env_perm"
version = "0.1.0"
edition = "2021"
publish = false

[dependencies]
boolinator = "=2.4.0"
dirs = "=7.0.0"
