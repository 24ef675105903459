[package]
name = "lumen"
version = "0.1.0"
edition = "2021"
publish = false

[dependencies]
failure = "0.1"
lalrpop-util = "0.16"
