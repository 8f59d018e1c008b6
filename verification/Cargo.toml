[package]
name = "zed_dprint"
version = "0.1.1"
edition = "2021"
publish = false

[dependencies]
zed_extension_api = "*"
